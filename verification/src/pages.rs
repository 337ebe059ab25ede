//! What the pages decide: which playlists a search shows, which filters the generator holds,
//! and what the buttons and status lines say.
use vstd::prelude::*;
use vstd::string::StringExecFns;
use crate::models::{SpotifyPlaylistItem, ImportedPlaylist, PlaylistFilter};
use crate::text::{chars_of, contains, contains_seq, append, push_decimal, decimal};

verus! {

/// `s` in lower case, as `str::to_lowercase` maps it (full Unicode case mapping).
pub uninterp spec fn lowercase_spec(s: Seq<char>) -> Seq<char>;

/// Lower-cases `s` with `str::to_lowercase`. Each character maps to one or more characters
/// (`char::to_lowercase`), so the result is empty exactly when `s` is.
#[verifier::external_body]
fn lowercase(s: &str) -> (r: String)
    ensures
        r@ == lowercase_spec(s@),
        r@.len() == 0 <==> s@.len() == 0,
{
    s.to_lowercase()
}

/// Whether a playlist name matches a search: the search is empty, or the lower-cased name
/// contains the lower-cased search.
pub open spec fn name_matches(name: Seq<char>, search: Seq<char>) -> bool {
    search.len() == 0 || contains_seq(lowercase_spec(name), lowercase_spec(search))
}

/// The playlists a search shows.
pub open spec fn search_pred(search: Seq<char>) -> spec_fn(SpotifyPlaylistItem) -> bool {
    |p: SpotifyPlaylistItem| name_matches(p.name@, search)
}

/// The imported playlists a search and an enrichment filter show.
pub open spec fn imported_pred(search: Seq<char>, status: Seq<char>) -> spec_fn(ImportedPlaylist) -> bool {
    |p: ImportedPlaylist| name_matches(p.name@, search) && status_matches(p, status)
}

/// The indices, in order, of the items of `s` that satisfy `p`.
pub open spec fn indices_where<T>(s: Seq<T>, p: spec_fn(T) -> bool) -> Seq<usize>
    decreases s.len(),
{
    if s.len() == 0 {
        Seq::empty()
    } else {
        let r = indices_where(s.drop_last(), p);
        if p(s.last()) {
            r.push((s.len() - 1) as usize)
        } else {
            r
        }
    }
}

fn name_match(name: &String, search_lower: &Vec<char>) -> (b: bool)
    ensures
        b == (search_lower@.len() == 0 || contains_seq(lowercase_spec(name@), search_lower@)),
{
    if search_lower.len() == 0 {
        return true;
    }
    let n = lowercase(name.as_str());
    let nc = chars_of(n.as_str());
    contains(&nc, search_lower)
}

/// The playlists a search shows, as indices into `playlists`, in order.
pub fn search_playlists(playlists: &Vec<SpotifyPlaylistItem>, search: &str) -> (r: Vec<usize>)
    ensures
        r@ == indices_where(playlists@, search_pred(search@)),
{
    let sl = lowercase(search);
    let sc = chars_of(sl.as_str());
    let ghost pred = search_pred(search@);
    let mut r: Vec<usize> = Vec::new();
    let mut i: usize = 0;
    while i < playlists.len()
        invariant
            i <= playlists.len(),
            sc@ == lowercase_spec(search@),
            (sc@.len() == 0) == (search@.len() == 0),
            pred == search_pred(search@),
            r@ == indices_where(playlists@.take(i as int), pred),
        decreases playlists.len() - i,
    {
        assert(playlists@.take(i + 1).drop_last() == playlists@.take(i as int));
        assert(playlists@.take(i + 1).last() == playlists@[i as int]);
        if name_match(&playlists[i].name, &sc) {
            r.push(i);
        }
        i = i + 1;
    }
    assert(playlists@.take(playlists.len() as int) == playlists@);
    r
}

/// Whether an imported playlist passes the enrichment filter chosen on the page.
pub open spec fn status_matches(p: ImportedPlaylist, status: Seq<char>) -> bool {
    if status == "not_enriched"@ {
        !p.has_enrichment
    } else if status == "partially_enriched"@ {
        p.has_enrichment && !p.fully_enriched
    } else if status == "fully_enriched"@ {
        p.fully_enriched
    } else {
        true
    }
}

fn status_match(p: &ImportedPlaylist, status: &String) -> (b: bool)
    ensures
        b == status_matches(*p, status@),
{
    if *status == String::from_str("not_enriched") {
        !p.has_enrichment
    } else if *status == String::from_str("partially_enriched") {
        p.has_enrichment && !p.fully_enriched
    } else if *status == String::from_str("fully_enriched") {
        p.fully_enriched
    } else {
        true
    }
}

/// The imported playlists a search and an enrichment filter show, as indices, in order.
pub fn search_imported_playlists(playlists: &Vec<ImportedPlaylist>, search: &str, status: &String) -> (r: Vec<usize>)
    ensures
        r@ == indices_where(playlists@, imported_pred(search@, status@)),
{
    let sl = lowercase(search);
    let sc = chars_of(sl.as_str());
    let ghost pred = imported_pred(search@, status@);
    let mut r: Vec<usize> = Vec::new();
    let mut i: usize = 0;
    while i < playlists.len()
        invariant
            i <= playlists.len(),
            sc@ == lowercase_spec(search@),
            (sc@.len() == 0) == (search@.len() == 0),
            pred == imported_pred(search@, status@),
            r@ == indices_where(playlists@.take(i as int), pred),
        decreases playlists.len() - i,
    {
        assert(playlists@.take(i + 1).drop_last() == playlists@.take(i as int));
        assert(playlists@.take(i + 1).last() == playlists@[i as int]);
        if name_match(&playlists[i].name, &sc) && status_match(&playlists[i], status) {
            r.push(i);
        }
        i = i + 1;
    }
    assert(playlists@.take(playlists.len() as int) == playlists@);
    r
}

/// An empty search shows every imported playlist that the enrichment filter lets through, in
/// order; with the filter `all` that is every playlist.
pub proof fn law_empty_search_keeps_status_matches(ps: Seq<ImportedPlaylist>, status: Seq<char>)
    ensures
        indices_where(ps, imported_pred(Seq::empty(), status)) == indices_where(
            ps,
            |p: ImportedPlaylist| status_matches(p, status),
        ),
        status == "all"@ ==> indices_where(ps, imported_pred(Seq::empty(), status)) == Seq::new(
            ps.len(),
            |i: int| i as usize,
        ),
    decreases ps.len(),
{
    if ps.len() > 0 {
        law_empty_search_keeps_status_matches(ps.drop_last(), status);
    }
    if status == "all"@ {
        lemma_all_status_is_everything(ps, status);
    }
}

proof fn lemma_all_status_is_everything(ps: Seq<ImportedPlaylist>, status: Seq<char>)
    requires
        status == "all"@,
    ensures
        indices_where(ps, imported_pred(Seq::empty(), status)) == Seq::new(ps.len(), |i: int| i as usize),
    decreases ps.len(),
{
    reveal_strlit("all");
    reveal_strlit("not_enriched");
    reveal_strlit("partially_enriched");
    reveal_strlit("fully_enriched");
    assert(status.len() != "not_enriched"@.len());
    assert(status.len() != "partially_enriched"@.len());
    assert(status != "fully_enriched"@);
    if ps.len() > 0 {
        lemma_all_status_is_everything(ps.drop_last(), status);
        assert(imported_pred(Seq::empty(), status)(ps.last()));
        assert(indices_where(ps, imported_pred(Seq::empty(), status)) =~= Seq::new(ps.len(), |i: int| i as usize));
    } else {
        assert(indices_where(ps, imported_pred(Seq::empty(), status)) =~= Seq::new(ps.len(), |i: int| i as usize));
    }
}

/// Whether a filter on this node type may carry a confidence threshold.
pub open spec fn takes_confidence(node_type: Seq<char>) -> bool {
    node_type == "Genre"@ || node_type == "Culture"@ || node_type == "UserTag"@
}

/// Whether a filter on this node type may carry a confidence threshold.
pub fn node_type_takes_confidence(node_type: &String) -> (b: bool)
    ensures
        b == takes_confidence(node_type@),
{
    *node_type == String::from_str("Genre") || *node_type == String::from_str("Culture") || *node_type
        == String::from_str("UserTag")
}

/// Whether some filter of `fs` has this node type and value.
pub open spec fn has_filter(fs: Seq<PlaylistFilter>, node_type: Seq<char>, value: Seq<char>) -> bool {
    exists|i: int| 0 <= i < fs.len() && (#[trigger] fs[i]).node_type@ == node_type && fs[i].value@ == value
}

/// Whether a filter with this node type and value is already chosen.
fn filter_chosen(filters: &Vec<PlaylistFilter>, node_type: &String, value: &String) -> (b: bool)
    ensures
        b == has_filter(filters@, node_type@, value@),
{
    let mut i: usize = 0;
    while i < filters.len()
        invariant
            i <= filters.len(),
            !has_filter(filters@.take(i as int), node_type@, value@),
        decreases filters.len() - i,
    {
        if filters[i].node_type == *node_type && filters[i].value == *value {
            return true;
        }
        assert forall|k: int| 0 <= k < i + 1 implies !((#[trigger] filters@.take(i + 1)[k]).node_type@ == node_type@
            && filters@.take(i + 1)[k].value@ == value@) by {
            if k < i {
                assert(filters@.take(i + 1)[k] == filters@.take(i as int)[k]);
            }
        }
        i = i + 1;
    }
    assert(filters@.take(filters.len() as int) == filters@);
    false
}

/// Adds the filter chosen on the generator page, when both a node type and a value are chosen
/// and no filter with that node type and value is chosen yet; the threshold is kept only for
/// node types that take one. Otherwise the filters stay as they were.
pub fn add_filter(filters: &mut Vec<PlaylistFilter>, node_type: String, value: String, threshold_bits: u64) -> (added: bool)
    ensures
        added == (node_type@.len() > 0 && value@.len() > 0 && !has_filter(old(filters)@, node_type@, value@)),
        added ==> final(filters)@ == old(filters)@.push(PlaylistFilter {
            node_type,
            value,
            min_confidence_bits: if takes_confidence(node_type@) { Some(threshold_bits) } else { None },
        }),
        !added ==> final(filters)@ == old(filters)@,
        final(filters)@ == after_add(old(filters)@, node_type, value, threshold_bits),
{
    if node_type.as_str().is_empty() || value.as_str().is_empty() {
        return false;
    }
    if filter_chosen(filters, &node_type, &value) {
        return false;
    }
    let min_confidence_bits = if node_type_takes_confidence(&node_type) {
        Some(threshold_bits)
    } else {
        None
    };
    filters.push(PlaylistFilter { node_type, value, min_confidence_bits });
    true
}

/// Filters added one by one never repeat a node type and value: if no two filters shared both
/// before an addition, none do after it.
pub proof fn law_filters_stay_distinct(
    before: Seq<PlaylistFilter>,
    after: Seq<PlaylistFilter>,
    added: bool,
    f: PlaylistFilter,
)
    requires
        forall|a: int, b: int|
            0 <= a < b < before.len() ==> !((#[trigger] before[a]).node_type@ == (#[trigger] before[b]).node_type@
                && before[a].value@ == before[b].value@),
        added == (f.node_type@.len() > 0 && f.value@.len() > 0 && !has_filter(before, f.node_type@, f.value@)),
        added ==> after == before.push(f),
        !added ==> after == before,
    ensures
        forall|a: int, b: int|
            0 <= a < b < after.len() ==> !((#[trigger] after[a]).node_type@ == (#[trigger] after[b]).node_type@
                && after[a].value@ == after[b].value@),
{
    if added {
        assert forall|a: int, b: int|
            0 <= a < b < after.len() implies !((#[trigger] after[a]).node_type@ == (#[trigger] after[b]).node_type@
            && after[a].value@ == after[b].value@) by {
            if b == before.len() {
                assert(after[a] == before[a]);
                assert(after[b] == f);
                if after[a].node_type@ == after[b].node_type@ && after[a].value@ == after[b].value@ {
                    assert(has_filter(before, f.node_type@, f.value@));
                }
            } else {
                assert(after[a] == before[a] && after[b] == before[b]);
            }
        }
    }
}

/// A change to the generator page's filters.
pub enum FilterEvent {
    /// `[ ADD FILTER ]` with this node type, value and threshold chosen.
    Add(String, String, u64),
    /// The filter at this index is removed.
    Remove(usize),
}

/// The filters after one click of `[ ADD FILTER ]`, as `add_filter` leaves them.
pub open spec fn after_add(fs: Seq<PlaylistFilter>, node_type: String, value: String, bits: u64) -> Seq<PlaylistFilter> {
    if node_type@.len() > 0 && value@.len() > 0 && !has_filter(fs, node_type@, value@) {
        fs.push(PlaylistFilter {
            node_type,
            value,
            min_confidence_bits: if takes_confidence(node_type@) { Some(bits) } else { None },
        })
    } else {
        fs
    }
}

/// The filters after `es`, starting from `fs`; a removal of an index past the end changes
/// nothing.
pub open spec fn after_events(fs: Seq<PlaylistFilter>, es: Seq<FilterEvent>) -> Seq<PlaylistFilter>
    decreases es.len(),
{
    if es.len() == 0 {
        fs
    } else {
        let before = after_events(fs, es.drop_last());
        match es.last() {
            FilterEvent::Add(t, v, b) => after_add(before, t, v, b),
            FilterEvent::Remove(i) => if i < before.len() { before.remove(i as int) } else { before },
        }
    }
}

/// Whether no two filters share both node type and value.
pub open spec fn filters_distinct(fs: Seq<PlaylistFilter>) -> bool {
    forall|a: int, b: int|
        0 <= a < b < fs.len() ==> !((#[trigger] fs[a]).node_type@ == (#[trigger] fs[b]).node_type@
            && fs[a].value@ == fs[b].value@)
}

/// Whatever filters are added and removed on the generator page, starting with none, no two of
/// the chosen filters ever share both node type and value.
pub proof fn law_filters_never_repeat(es: Seq<FilterEvent>)
    ensures
        filters_distinct(after_events(Seq::empty(), es)),
    decreases es.len(),
{
    if es.len() > 0 {
        law_filters_never_repeat(es.drop_last());
        let before = after_events(Seq::empty(), es.drop_last());
        match es.last() {
            FilterEvent::Add(t, v, b) => {
                let f = PlaylistFilter {
                    node_type: t,
                    value: v,
                    min_confidence_bits: if takes_confidence(t@) { Some(b) } else { None },
                };
                let added = t@.len() > 0 && v@.len() > 0 && !has_filter(before, t@, v@);
                law_filters_stay_distinct(before, after_add(before, t, v, b), added, f);
            },
            FilterEvent::Remove(i) => {
                if i < before.len() {
                    let after = before.remove(i as int);
                    assert forall|a: int, b: int|
                        0 <= a < b < after.len() implies !((#[trigger] after[a]).node_type@
                        == (#[trigger] after[b]).node_type@ && after[a].value@ == after[b].value@) by {
                        let a0 = if a < i { a } else { a + 1 };
                        let b0 = if b < i { b } else { b + 1 };
                        assert(after[a] == before[a0]);
                        assert(after[b] == before[b0]);
                    }
                }
            },
        }
    }
}

/// Removes the filter at `index`.
pub fn remove_filter(filters: &mut Vec<PlaylistFilter>, index: usize)
    requires
        index < old(filters)@.len(),
    ensures
        final(filters)@ == old(filters)@.remove(index as int),
{
    filters.remove(index);
}

/// The label of the generate button.
pub fn generate_button_label(generating: bool, filter_count: usize) -> (s: String)
    ensures
        s@ == (if generating {
            "[ GENERATING PLAYLIST... ]"@
        } else if filter_count == 0 {
            "[ ADD FILTERS TO GENERATE ]"@
        } else {
            "[ GENERATE PLAYLIST ("@ + decimal(filter_count as nat) + " filters) ]"@
        }),
{
    if generating {
        String::from_str("[ GENERATING PLAYLIST... ]")
    } else if filter_count == 0 {
        String::from_str("[ ADD FILTERS TO GENERATE ]")
    } else {
        let mut s = String::from_str("[ GENERATE PLAYLIST (");
        push_decimal(&mut s, filter_count as u64);
        append(&mut s, " filters) ]");
        s
    }
}

/// The label of an imported playlist's enrich button.
pub fn enrich_button_label(enriching: bool, p: &ImportedPlaylist, song_count: u32) -> (s: String)
    ensures
        s@ == (if enriching {
            "[ ENRICHING "@ + decimal(song_count as nat) + " SONGS... ]"@
        } else if p.fully_enriched {
            "[ FULLY ENRICHED ]"@
        } else if p.song_count == 0 {
            "[ EMPTY ]"@
        } else {
            "[ ENRICH "@ + decimal(song_count as nat) + " SONGS ]"@
        }),
{
    if enriching {
        let mut s = String::from_str("[ ENRICHING ");
        push_decimal(&mut s, song_count as u64);
        append(&mut s, " SONGS... ]");
        s
    } else if p.fully_enriched {
        String::from_str("[ FULLY ENRICHED ]")
    } else if p.song_count == 0 {
        String::from_str("[ EMPTY ]")
    } else {
        let mut s = String::from_str("[ ENRICH ");
        push_decimal(&mut s, song_count as u64);
        append(&mut s, " SONGS ]");
        s
    }
}

/// How a status line is shown.
#[derive(Debug, Clone, Copy, PartialEq, Eq, Structural)]
pub enum StatusTone {
    Success,
    Failure,
    Neutral,
}

/// The tone of a status line: success when it says `SUCCESS` or carries a check mark, failure
/// when it says `ERROR` or carries a cross, otherwise neutral.
pub fn status_tone(message: &str) -> (t: StatusTone)
    ensures
        t == (if contains_seq(message@, "SUCCESS"@) || contains_seq(message@, "\u{2705}"@) {
            StatusTone::Success
        } else if contains_seq(message@, "ERROR"@) || contains_seq(message@, "\u{274c}"@) {
            StatusTone::Failure
        } else {
            StatusTone::Neutral
        }),
{
    let m = chars_of(message);
    let success = chars_of("SUCCESS");
    let check = chars_of("\u{2705}");
    let error = chars_of("ERROR");
    let cross = chars_of("\u{274c}");
    if contains(&m, &success) || contains(&m, &check) {
        StatusTone::Success
    } else if contains(&m, &error) || contains(&m, &cross) {
        StatusTone::Failure
    } else {
        StatusTone::Neutral
    }
}

/// The frame shown after `frame` in the ten-frame spinner.
pub fn next_spinner_frame(frame: usize) -> (r: usize)
    ensures
        r == (frame + 1) % 10,
{
    if frame >= 9 {
        (frame % 10 + 1) % 10
    } else {
        frame + 1
    }
}

} // verus!
