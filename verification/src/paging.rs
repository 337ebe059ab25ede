//! Walking Spotify's paged lists: which page to ask for next, what to keep from each page, and
//! when the walk ends.
use vstd::prelude::*;
use crate::models::{SpotifyPlaylistItem, SpotifyPlaylistsResponse, SpotifyPlaylistTrackResponse, SpotifyTrackItem, PlaylistItemTrackWrapper};
use crate::text::{chars_of, lookup_last, last_value, pair_views, parse_u32, parse_u32_spec, IntParseError, append};
use vstd::string::StringExecFns;

verus! {

/// The query pairs of `url` as `url::Url` parses it, percent-decoded and in order, or the text
/// of the parse error.
pub uninterp spec fn url_query_pairs_spec(url: Seq<char>) -> Result<Seq<(Seq<char>, Seq<char>)>, Seq<char>>;

/// The text of `base` as `url::Url` serializes it after each of `pairs` is appended to its
/// query (form-urlencoded), or `None` when `base` does not parse.
pub uninterp spec fn url_with_query_spec(base: Seq<char>, pairs: Seq<(Seq<char>, Seq<char>)>) -> Option<Seq<char>>;

/// Parses `url` with `reqwest::Url::parse` and collects its `query_pairs`; a parse error is
/// handed back as its `Display` text.
#[verifier::external_body]
fn url_query_pairs(url: &str) -> (r: Result<Vec<(String, String)>, String>)
    ensures
        url_query_pairs_spec(url@) == (match r {
            Ok(v) => Ok::<Seq<(Seq<char>, Seq<char>)>, Seq<char>>(pair_views(v@)),
            Err(e) => Err::<Seq<(Seq<char>, Seq<char>)>, Seq<char>>(e@),
        }),
{
    match reqwest::Url::parse(url) {
        Ok(u) => Ok(u.query_pairs().into_owned().collect()),
        Err(e) => Err(e.to_string()),
    }
}

/// Whether `s` holds a `#`, which starts a URL's fragment.
pub open spec fn has_hash(s: Seq<char>) -> bool {
    exists|i: int| 0 <= i < s.len() && s[i] == '#'
}

/// Two texts without `#` joined hold none either.
pub proof fn lemma_no_hash_concat(a: Seq<char>, b: Seq<char>)
    requires
        !has_hash(a),
        !has_hash(b),
    ensures
        !has_hash(a + b),
{
    assert forall|i: int| 0 <= i < (a + b).len() implies (a + b)[i] != '#' by {
        if i < a.len() {
            assert((a + b)[i] == a[i]);
        } else {
            assert((a + b)[i] == b[i - a.len()]);
        }
    }
}

/// Whether `s` holds a `#`.
pub fn contains_hash(s: &str) -> (b: bool)
    ensures
        b == has_hash(s@),
{
    let cs = chars_of(s);
    let mut i: usize = 0;
    while i < cs.len()
        invariant
            i <= cs.len(),
            cs@ == s@,
            forall|k: int| 0 <= k < i ==> cs@[k] != '#',
        decreases cs.len() - i,
    {
        if cs[i] == '#' {
            return true;
        }
        i = i + 1;
    }
    false
}

/// Parses `base` with `reqwest::Url::parse`, appends each pair with `query_pairs_mut().append_pair`
/// and hands back the resulting text; `None` when `base` does not parse. `query_pairs_mut` sets
/// a fragment aside and puts it back at a `u32` offset, which panics past `u32::MAX` bytes; a
/// base without `#` has no fragment, so that cannot happen.
#[verifier::external_body]
pub(crate) fn url_with_query(base: &str, pairs: &Vec<(String, String)>) -> (r: Option<String>)
    requires
        !has_hash(base@),
    ensures
        url_with_query_spec(base@, pair_views(pairs@)) == (match r {
            Some(s) => Some(s@),
            None => None::<Seq<char>>,
        }),
{
    match reqwest::Url::parse(base) {
        Ok(mut u) => {
            {
                let mut q = u.query_pairs_mut();
                for (k, v) in pairs {
                    q.append_pair(k, v);
                }
            }
            Some(u.as_str().to_string())
        },
        Err(_) => None,
    }
}

/// Why the next page of a list could not be asked for.
#[derive(Debug, Clone, PartialEq)]
pub enum PageError {
    /// The `next` link did not parse; the parser's message.
    InvalidNextUrl(String),
    MissingOffset,
    InvalidOffset(IntParseError),
    MissingLimit,
    InvalidLimit(IntParseError),
}

/// A `PageError` with its message as characters.
pub enum PageErrorView {
    InvalidNextUrl(Seq<char>),
    MissingOffset,
    InvalidOffset(IntParseError),
    MissingLimit,
    InvalidLimit(IntParseError),
}

impl View for PageError {
    type V = PageErrorView;

    open spec fn view(&self) -> PageErrorView {
        match self {
            PageError::InvalidNextUrl(m) => PageErrorView::InvalidNextUrl(m@),
            PageError::MissingOffset => PageErrorView::MissingOffset,
            PageError::InvalidOffset(k) => PageErrorView::InvalidOffset(*k),
            PageError::MissingLimit => PageErrorView::MissingLimit,
            PageError::InvalidLimit(k) => PageErrorView::InvalidLimit(*k),
        }
    }
}

/// The message reported for a page error. A missing or malformed `limit` is reported in the
/// words used for `offset`.
pub open spec fn page_error_message(e: PageErrorView) -> Seq<char> {
    match e {
        PageErrorView::InvalidNextUrl(m) => m,
        PageErrorView::MissingOffset => "Missing 'offset' in Spotify's next URL"@,
        PageErrorView::InvalidOffset(k) => "Invalid 'offset' in next URL: "@ + k.message_spec(),
        PageErrorView::MissingLimit => "Missing 'offset' in Spotify's next URL"@,
        PageErrorView::InvalidLimit(k) => "Invalid 'offset' in next URL: "@ + k.message_spec(),
    }
}

impl PageError {
    /// The message reported for this error.
    pub fn message(&self) -> (m: String)
        ensures
            m@ == page_error_message(self@),
    {
        match self {
            PageError::InvalidNextUrl(m) => m.clone(),
            PageError::MissingOffset => String::from_str("Missing 'offset' in Spotify's next URL"),
            PageError::InvalidOffset(k) => {
                let mut s = String::from_str("Invalid 'offset' in next URL: ");
                let t = k.message();
                append(&mut s, t.as_str());
                s
            },
            PageError::MissingLimit => String::from_str("Missing 'offset' in Spotify's next URL"),
            PageError::InvalidLimit(k) => {
                let mut s = String::from_str("Invalid 'offset' in next URL: ");
                let t = k.message();
                append(&mut s, t.as_str());
                s
            },
        }
    }
}

pub open spec fn offset_key() -> Seq<char> {
    seq!['o', 'f', 'f', 's', 'e', 't']
}

pub open spec fn limit_key() -> Seq<char> {
    seq!['l', 'i', 'm', 'i', 't']
}

/// The `offset` that a `next` link asks for: the last `offset` pair of its query, read as a
/// decimal `u32`.
pub open spec fn next_offset_spec(next: Seq<char>) -> Result<u32, PageErrorView> {
    match url_query_pairs_spec(next) {
        Err(m) => Err(PageErrorView::InvalidNextUrl(m)),
        Ok(pairs) => match last_value(pairs, offset_key()) {
            None => Err(PageErrorView::MissingOffset),
            Some(v) => match parse_u32_spec(v) {
                Ok(n) => Ok(n),
                Err(k) => Err(PageErrorView::InvalidOffset(k)),
            },
        },
    }
}

/// The `(limit, offset)` that a `next` link asks for; the offset is read first.
pub open spec fn next_limit_offset_spec(next: Seq<char>) -> Result<(u32, u32), PageErrorView> {
    match next_offset_spec(next) {
        Err(e) => Err(e),
        Ok(offset) => match url_query_pairs_spec(next) {
            Err(m) => Err(PageErrorView::InvalidNextUrl(m)),
            Ok(pairs) => match last_value(pairs, limit_key()) {
                None => Err(PageErrorView::MissingLimit),
                Some(v) => match parse_u32_spec(v) {
                    Ok(n) => Ok((n, offset)),
                    Err(k) => Err(PageErrorView::InvalidLimit(k)),
                },
            },
        },
    }
}

pub open spec fn result_view<T>(r: Result<T, PageError>) -> Result<T, PageErrorView> {
    match r {
        Ok(t) => Ok(t),
        Err(e) => Err(e@),
    }
}

fn query_value(pairs: &Vec<(String, String)>, key: &str) -> (r: Option<Vec<char>>)
    ensures
        r matches Some(v) ==> last_value(pair_views(pairs@), key@) == Some(v@),
        r is None ==> last_value(pair_views(pairs@), key@) is None,
{
    match lookup_last(pairs, key) {
        Some(v) => Some(chars_of(v.as_str())),
        None => None,
    }
}

/// The `offset` that a `next` link asks for.
pub fn next_offset(next: &str) -> (r: Result<u32, PageError>)
    ensures
        result_view(r) == next_offset_spec(next@),
{
    let pairs = match url_query_pairs(next) {
        Ok(p) => p,
        Err(m) => return Err(PageError::InvalidNextUrl(m)),
    };
    proof {
        reveal_strlit("offset");
        assert("offset"@ =~= offset_key());
    }
    match query_value(&pairs, "offset") {
        None => Err(PageError::MissingOffset),
        Some(v) => match parse_u32(&v) {
            Ok(n) => Ok(n),
            Err(k) => Err(PageError::InvalidOffset(k)),
        },
    }
}

/// The `(limit, offset)` that a `next` link asks for.
pub fn next_limit_offset(next: &str) -> (r: Result<(u32, u32), PageError>)
    ensures
        result_view(r) == next_limit_offset_spec(next@),
{
    let offset = match next_offset(next) {
        Ok(o) => o,
        Err(e) => return Err(e),
    };
    let pairs = match url_query_pairs(next) {
        Ok(p) => p,
        Err(m) => return Err(PageError::InvalidNextUrl(m)),
    };
    proof {
        reveal_strlit("limit");
        assert("limit"@ =~= limit_key());
    }
    match query_value(&pairs, "limit") {
        None => Err(PageError::MissingLimit),
        Some(v) => match parse_u32(&v) {
            Ok(n) => Ok((n, offset)),
            Err(k) => Err(PageError::InvalidLimit(k)),
        },
    }
}

} // verus!

verus! {

/// Whether some playlist in `s` has the id `id`.
pub open spec fn has_id(s: Seq<SpotifyPlaylistItem>, id: Seq<char>) -> bool {
    exists|j: int| 0 <= j < s.len() && (#[trigger] s[j]).id@ == id
}

/// `s` with every playlist whose id occurred earlier in `s` left out.
pub open spec fn keep_first_by_id(s: Seq<SpotifyPlaylistItem>) -> Seq<SpotifyPlaylistItem>
    decreases s.len(),
{
    if s.len() == 0 {
        Seq::empty()
    } else {
        let r = keep_first_by_id(s.drop_last());
        if has_id(s.drop_last(), s.last().id@) {
            r
        } else {
            r.push(s.last())
        }
    }
}

proof fn lemma_keep_first_ids(s: Seq<SpotifyPlaylistItem>)
    ensures
        forall|id: Seq<char>| has_id(keep_first_by_id(s), id) <==> has_id(s, id),
        forall|i: int| 0 <= i < keep_first_by_id(s).len() ==> s.contains(#[trigger] keep_first_by_id(s)[i]),
        forall|a: int, b: int|
            0 <= a < b < keep_first_by_id(s).len() ==> (#[trigger] keep_first_by_id(s)[a]).id@
                != (#[trigger] keep_first_by_id(s)[b]).id@,
    decreases s.len(),
{
    if s.len() > 0 {
        let p = s.drop_last();
        lemma_keep_first_ids(p);
        let r = keep_first_by_id(p);
        let t = keep_first_by_id(s);
        assert(t.len() >= r.len());
        assert(forall|q: int| 0 <= q < r.len() ==> t[q] == r[q]);
        assert forall|id: Seq<char>| has_id(t, id) <==> has_id(s, id) by {
            if has_id(s, id) {
                let j = choose|j: int| 0 <= j < s.len() && (#[trigger] s[j]).id@ == id;
                if j < p.len() {
                    assert(p[j] == s[j]);
                    assert(has_id(p, id));
                    assert(has_id(r, id));
                    let q = choose|q: int| 0 <= q < r.len() && (#[trigger] r[q]).id@ == id;
                    assert(t[q] == r[q]);
                } else if has_id(p, s.last().id@) {
                    assert(has_id(r, id));
                    let q = choose|q: int| 0 <= q < r.len() && (#[trigger] r[q]).id@ == id;
                    assert(t[q] == r[q]);
                } else {
                    assert(t[r.len() as int] == s.last());
                }
            }
            if has_id(t, id) {
                let j = choose|j: int| 0 <= j < t.len() && (#[trigger] t[j]).id@ == id;
                if j < r.len() {
                    assert(t[j] == r[j]);
                    assert(has_id(r, id));
                    let k = choose|k: int| 0 <= k < p.len() && (#[trigger] p[k]).id@ == id;
                    assert(s[k] == p[k]);
                } else {
                    assert(s[s.len() - 1] == s.last());
                }
            }
        }
        assert forall|i: int| 0 <= i < keep_first_by_id(s).len() implies s.contains(
            #[trigger] keep_first_by_id(s)[i],
        ) by {
            let t = keep_first_by_id(s);
            if i < r.len() {
                assert(t[i] == r[i]);
                let k = choose|k: int| 0 <= k < p.len() && p[k] == r[i];
                assert(s[k] == p[k]);
            } else {
                assert(s[s.len() - 1] == t[i]);
            }
        }
        assert forall|a: int, b: int|
            0 <= a < b < keep_first_by_id(s).len() implies (#[trigger] keep_first_by_id(s)[a]).id@
            != (#[trigger] keep_first_by_id(s)[b]).id@ by {
            let t = keep_first_by_id(s);
            if b < r.len() {
                assert(t[a] == r[a] && t[b] == r[b]);
            } else {
                assert(t[a] == r[a]);
                assert(t[b] == s.last());
                assert(!has_id(p, s.last().id@));
                if t[a].id@ == t[b].id@ {
                    assert(has_id(r, s.last().id@));
                }
            }
        }
    }
}

/// No two playlists that the walk hands back share an id.
pub proof fn law_kept_ids_are_unique(s: Seq<SpotifyPlaylistItem>)
    ensures
        forall|a: int, b: int|
            0 <= a < b < keep_first_by_id(s).len() ==> (#[trigger] keep_first_by_id(s)[a]).id@
                != (#[trigger] keep_first_by_id(s)[b]).id@,
{
    lemma_keep_first_ids(s);
}

/// Every id fetched is still there after duplicates are dropped, and nothing else is.
pub proof fn law_kept_ids_cover_input(s: Seq<SpotifyPlaylistItem>, id: Seq<char>)
    ensures
        has_id(keep_first_by_id(s), id) <==> has_id(s, id),
{
    lemma_keep_first_ids(s);
}

/// Every playlist handed back is one that was fetched.
pub proof fn law_kept_items_were_fetched(s: Seq<SpotifyPlaylistItem>, i: int)
    requires
        0 <= i < keep_first_by_id(s).len(),
    ensures
        s.contains(keep_first_by_id(s)[i]),
{
    lemma_keep_first_ids(s);
}

/// Drops every playlist whose id occurred earlier; the first of each id stays, in order.
pub fn dedup_playlists_by_id(items: Vec<SpotifyPlaylistItem>) -> (r: Vec<SpotifyPlaylistItem>)
    ensures
        r@ == keep_first_by_id(items@),
{
    let n = items.len();
    let mut keep: Vec<bool> = Vec::new();
    let mut i: usize = 0;
    while i < n
        invariant
            i <= n,
            n == items.len(),
            keep.len() == i,
            forall|k: int| 0 <= k < i ==> (#[trigger] keep@[k]) == !has_id(items@.take(k), items@[k].id@),
        decreases n - i,
    {
        let mut seen = false;
        let mut j: usize = 0;
        while j < i
            invariant
                j <= i < n,
                n == items.len(),
                seen == has_id(items@.take(j as int), items@[i as int].id@),
            decreases i - j,
        {
            let ghost pj = items@.take(j as int);
            let ghost pj1 = items@.take(j + 1);
            if items[j].id == items[i].id {
                assert(pj1[j as int] == items@[j as int]);
                seen = true;
            } else {
                assert forall|id: Seq<char>| has_id(pj1, id) ==> has_id(pj, id) || items@[j as int].id@ == id by {
                    if has_id(pj1, id) {
                        let k = choose|k: int| 0 <= k < pj1.len() && (#[trigger] pj1[k]).id@ == id;
                        if k < j {
                            assert(pj[k] == pj1[k]);
                        }
                    }
                }
                assert forall|id: Seq<char>| has_id(pj, id) ==> has_id(pj1, id) by {
                    if has_id(pj, id) {
                        let k = choose|k: int| 0 <= k < pj.len() && (#[trigger] pj[k]).id@ == id;
                        assert(pj1[k] == pj[k]);
                    }
                }
            }
            j = j + 1;
        }
        keep.push(!seen);
        i = i + 1;
    }
    let mut r: Vec<SpotifyPlaylistItem> = Vec::new();
    let ghost all = items@;
    let mut k: usize = 0;
    for x in it: items.into_iter()
        invariant
            it.seq() == all,
            k == it.index(),
            n == all.len(),
            keep.len() == n,
            forall|q: int| 0 <= q < n ==> (#[trigger] keep@[q]) == !has_id(all.take(q), all[q].id@),
            r@ == keep_first_by_id(all.take(k as int)),
    {
        let ghost pre = all.take(k as int);
        let ghost next = all.take(k + 1);
        assert(next.drop_last() == pre);
        assert(next.last() == all[k as int]);
        if keep[k] {
            r.push(x);
        }
        k = k + 1;
    }
    assert(all.take(n as int) == all);
    r
}

/// The tracks present in a page's items, in order.
pub open spec fn present_tracks(items: Seq<PlaylistItemTrackWrapper>) -> Seq<SpotifyTrackItem>
    decreases items.len(),
{
    if items.len() == 0 {
        Seq::empty()
    } else {
        let r = present_tracks(items.drop_last());
        match items.last().track {
            Some(t) => r.push(t),
            None => r,
        }
    }
}

/// The tracks present in a page's items.
pub fn take_present_tracks(items: Vec<PlaylistItemTrackWrapper>) -> (r: Vec<SpotifyTrackItem>)
    ensures
        r@ == present_tracks(items@),
{
    let mut r: Vec<SpotifyTrackItem> = Vec::new();
    let ghost all = items@;
    let n = items.len();
    let mut k: usize = 0;
    for x in it: items.into_iter()
        invariant
            it.seq() == all,
            n == all.len(),
            k == it.index(),
            r@ == present_tracks(all.take(k as int)),
    {
        let ghost pre = all.take(k as int);
        let ghost next = all.take(k + 1);
        assert(next.drop_last() == pre);
        assert(next.last() == all[k as int]);
        match x.track {
            Some(t) => r.push(t),
            None => {},
        }
        k = k + 1;
    }
    assert(all.take(all.len() as int) == all);
    r
}

} // verus!

verus! {

/// The playlists gathered so far while walking the user's playlist pages.
pub struct PlaylistPager {
    pub collected: Vec<SpotifyPlaylistItem>,
}

/// What to do after a page of playlists arrived.
pub enum PlaylistPagerStep {
    /// Ask for the page at `offset`, of `limit` items.
    Fetch { pager: PlaylistPager, limit: u32, offset: u32 },
    /// The walk is over; every playlist once, first occurrence kept.
    Done(Vec<SpotifyPlaylistItem>),
    Failed(PageError),
}

impl PlaylistPager {
    /// The first page asked for: 50 playlists from offset 0.
    pub fn start() -> (r: (PlaylistPager, u32, u32))
        ensures
            r.0.collected@ == Seq::<SpotifyPlaylistItem>::empty(),
            r.1 == 50,
            r.2 == 0,
    {
        (PlaylistPager { collected: Vec::new() }, 50, 0)
    }

    /// Takes in one page: its playlists are added; without a `next` link the walk ends with the
    /// playlists deduplicated by id, otherwise the `limit` and `offset` of the `next` link are
    /// asked for.
    pub fn on_page(self, page: SpotifyPlaylistsResponse) -> (step: PlaylistPagerStep)
        ensures
            ({
                let all = self.collected@ + page.items@;
                match page.next {
                    None => step matches PlaylistPagerStep::Done(v) && v@ == keep_first_by_id(all),
                    Some(u) => match next_limit_offset_spec(u@) {
                        Ok(lo) => step matches PlaylistPagerStep::Fetch { pager, limit, offset } && pager.collected@
                            == all && limit == lo.0 && offset == lo.1,
                        Err(e) => step matches PlaylistPagerStep::Failed(err) && err@ == e,
                    },
                }
            }),
    {
        let mut collected = self.collected;
        let mut items = page.items;
        collected.append(&mut items);
        match page.next {
            None => PlaylistPagerStep::Done(dedup_playlists_by_id(collected)),
            Some(u) => match next_limit_offset(u.as_str()) {
                Ok((limit, offset)) => PlaylistPagerStep::Fetch {
                    pager: PlaylistPager { collected },
                    limit,
                    offset,
                },
                Err(e) => PlaylistPagerStep::Failed(e),
            },
        }
    }
}

/// The tracks gathered so far while walking a playlist's track pages.
pub struct TrackPager {
    pub collected: Vec<SpotifyTrackItem>,
}

/// What to do after a page of tracks arrived.
pub enum TrackPagerStep {
    /// Ask for the page at `offset` (pages are always 50 long).
    Fetch { pager: TrackPager, offset: u32 },
    Done(Vec<SpotifyTrackItem>),
    Failed(PageError),
}

/// The number of tracks asked for per page.
pub const TRACK_PAGE_LIMIT: u32 = 50;

impl TrackPager {
    /// The first page asked for: offset 0.
    pub fn start() -> (r: (TrackPager, u32))
        ensures
            r.0.collected@ == Seq::<SpotifyTrackItem>::empty(),
            r.1 == 0,
    {
        (TrackPager { collected: Vec::new() }, 0)
    }

    /// Takes in one page: an empty page without a `next` link ends the walk; otherwise its
    /// present tracks are added, and the walk ends without a `next` link or goes on at the
    /// `offset` of the `next` link.
    pub fn on_page(self, page: SpotifyPlaylistTrackResponse) -> (step: TrackPagerStep)
        ensures
            ({
                let all = self.collected@ + present_tracks(page.items@);
                if page.items@.len() == 0 && page.next is None {
                    step matches TrackPagerStep::Done(v) && v@ == self.collected@
                } else {
                    match page.next {
                        None => step matches TrackPagerStep::Done(v) && v@ == all,
                        Some(u) => match next_offset_spec(u@) {
                            Ok(o) => step matches TrackPagerStep::Fetch { pager, offset } && pager.collected@
                                == all && offset == o,
                            Err(e) => step matches TrackPagerStep::Failed(err) && err@ == e,
                        },
                    }
                }
            }),
    {
        if page.items.len() == 0 && page.next.is_none() {
            return TrackPagerStep::Done(self.collected);
        }
        let mut collected = self.collected;
        let mut tracks = take_present_tracks(page.items);
        collected.append(&mut tracks);
        match page.next {
            None => TrackPagerStep::Done(collected),
            Some(u) => match next_offset(u.as_str()) {
                Ok(offset) => TrackPagerStep::Fetch { pager: TrackPager { collected }, offset },
                Err(e) => TrackPagerStep::Failed(e),
            },
        }
    }
}

} // verus!
