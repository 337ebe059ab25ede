//! True shuffling: a playlist's track URIs in random order, copied into a new playlist in
//! batches of 100, and the steps of the shuffle page.
use vstd::prelude::*;
use vstd::string::StringExecFns;
use crate::models::{NewPlaylistDetails, SpotifyPlaylistItem, SpotifyTrackItem};
use crate::pkce::{encode_base64_standard, base64_standard_spec};
use crate::text::append;

use rand::seq::SliceRandom as _;

verus! {

/// Puts `v` in random order with `rand`'s `SliceRandom::shuffle` on the thread-local generator.
/// The shuffle only swaps elements, so the result holds the same elements; their order is chance.
#[verifier::external_body]
fn shuffle_in_place(v: &mut Vec<String>)
    ensures
        final(v)@.len() == old(v)@.len(),
        final(v)@.to_multiset() == old(v)@.to_multiset(),
{
    v.shuffle(&mut rand::thread_rng());
}

/// The URIs of `tracks`, in order.
pub open spec fn uris_of(tracks: Seq<SpotifyTrackItem>) -> Seq<String> {
    tracks.map_values(|t: SpotifyTrackItem| t.uri)
}

/// The URIs of `tracks`, in order.
pub fn track_uris(tracks: Vec<SpotifyTrackItem>) -> (r: Vec<String>)
    ensures
        r@ == uris_of(tracks@),
{
    let mut r: Vec<String> = Vec::new();
    let ghost all = tracks@;
    let n = tracks.len();
    let mut k: usize = 0;
    for t in it: tracks.into_iter()
        invariant
            it.seq() == all,
            n == all.len(),
            k == it.index(),
            r@ == uris_of(all.take(k as int)),
    {
        assert(uris_of(all.take(k + 1)) == uris_of(all.take(k as int)).push(all[k as int].uri));
        r.push(t.uri);
        k = k + 1;
    }
    assert(all.take(n as int) == all);
    r
}

/// The number of URIs sent to Spotify per request.
pub const BATCH_SIZE: usize = 100;

/// Whether `c` is the `k`-th batch of 100 of `s`.
pub open spec fn is_batch(s: Seq<String>, k: int, c: Seq<String>) -> bool {
    let end = if (k + 1) * 100 < s.len() { (k + 1) * 100 } else { s.len() as int };
    c == s.subrange(k * 100, end)
}

/// The number of batches of 100 that `n` items fill.
pub open spec fn batch_count(n: nat) -> nat {
    if n == 0 { 0 } else { ((n - 1) / 100 + 1) as nat }
}

/// The views of a list of batches.
pub open spec fn batch_views(b: Seq<Vec<String>>) -> Seq<Seq<String>> {
    b.map_values(|c: Vec<String>| c@)
}

/// Splits `v` into consecutive batches of 100; the last may be shorter.
pub fn batches_of(v: &Vec<String>) -> (r: Vec<Vec<String>>)
    ensures
        r.len() == batch_count(v@.len()),
        forall|k: int| 0 <= k < r.len() ==> is_batch(v@, k, (#[trigger] r@[k])@),
        batch_views(r@).flatten() == v@,
{
    let n = v.len();
    let mut r: Vec<Vec<String>> = Vec::new();
    let mut start: usize = 0;
    while start < n
        invariant
            n == v.len(),
            start <= n,
            start == (if 100 * r.len() < n { 100 * r.len() } else { n as int }),
            start < n ==> r.len() < batch_count(n as nat),
            start == n ==> r.len() == batch_count(n as nat),
            forall|k: int| 0 <= k < r.len() ==> is_batch(v@, k, (#[trigger] r@[k])@),
            batch_views(r@).flatten() == v@.subrange(0, start as int),
        decreases n - start,
    {
        let end = if n - start > 100 { start + 100 } else { n };
        let mut c: Vec<String> = Vec::new();
        let mut j = start;
        while j < end
            invariant
                start <= j <= end <= n,
                n == v.len(),
                c@ == v@.subrange(start as int, j as int),
            decreases end - j,
        {
            c.push(v[j].clone());
            assert(v@.subrange(start as int, j + 1) == v@.subrange(start as int, j as int).push(v@[j as int]));
            j = j + 1;
        }
        let ghost old_r = r@;
        proof {
            batch_views(old_r).lemma_flatten_push(c@);
            assert(batch_views(old_r.push(c)) == batch_views(old_r).push(c@));
            assert(v@.subrange(0, end as int) == v@.subrange(0, start as int) + v@.subrange(start as int, end as int));
        }
        r.push(c);
        assert forall|k: int| 0 <= k < r.len() implies is_batch(v@, k, (#[trigger] r@[k])@) by {
            if k < old_r.len() {
                assert(r@[k] == old_r[k]);
            }
        }
        start = end;
    }
    assert(v@.subrange(0, n as int) == v@);
    r
}

/// Whether to pause after sending a batch: only when there is more than one batch and this
/// one is full.
pub open spec fn pause_after_spec(total: nat, batch_len: nat) -> bool {
    total > 100 && batch_len == 100
}

/// Whether to pause after sending a batch of `batch_len` out of `total` URIs.
pub fn pause_after(total: usize, batch_len: usize) -> (b: bool)
    ensures
        b == pause_after_spec(total as nat, batch_len as nat),
{
    total > 100 && batch_len == 100
}

/// The name of the shuffled copy of a playlist.
pub open spec fn shuffled_name_spec(name: Seq<char>) -> Seq<char> {
    name + " - TRUE SHUFFLED"@
}

/// The description of the shuffled copy of a playlist.
pub open spec fn shuffled_description_spec(name: Seq<char>) -> Seq<char> {
    "A true random shuffle of '"@ + name + "'!"@
}

/// The endpoint that creates a playlist for a user.
pub open spec fn user_playlists_url_spec(user_id: Seq<char>) -> Seq<char> {
    "https://api.spotify.com/v1/users/"@ + user_id + "/playlists"@
}

/// The endpoint that adds tracks to a playlist.
pub open spec fn playlist_tracks_url_spec(playlist_id: Seq<char>) -> Seq<char> {
    "https://api.spotify.com/v1/playlists/"@ + playlist_id + "/tracks"@
}

/// The endpoint that replaces a playlist's cover image.
pub open spec fn playlist_images_url_spec(playlist_id: Seq<char>) -> Seq<char> {
    "https://api.spotify.com/v1/playlists/"@ + playlist_id + "/images"@
}

/// The web page of a playlist.
pub open spec fn playlist_web_url_spec(playlist_id: Seq<char>) -> Seq<char> {
    "https://open.spotify.com/playlist/"@ + playlist_id
}

fn concat2(a: &str, b: &str) -> (s: String)
    ensures
        s@ == a@ + b@,
{
    let mut s = String::from_str(a);
    append(&mut s, b);
    s
}

fn concat3(a: &str, b: &str, c: &str) -> (s: String)
    ensures
        s@ == a@ + b@ + c@,
{
    let mut s = String::from_str(a);
    append(&mut s, b);
    append(&mut s, c);
    s
}

pub fn shuffled_name(name: &str) -> (s: String)
    ensures
        s@ == shuffled_name_spec(name@),
{
    concat2(name, " - TRUE SHUFFLED")
}

pub fn shuffled_description(name: &str) -> (s: String)
    ensures
        s@ == shuffled_description_spec(name@),
{
    concat3("A true random shuffle of '", name, "'!")
}

pub fn user_playlists_url(user_id: &str) -> (s: String)
    ensures
        s@ == user_playlists_url_spec(user_id@),
{
    concat3("https://api.spotify.com/v1/users/", user_id, "/playlists")
}

pub fn playlist_tracks_url(playlist_id: &str) -> (s: String)
    ensures
        s@ == playlist_tracks_url_spec(playlist_id@),
{
    concat3("https://api.spotify.com/v1/playlists/", playlist_id, "/tracks")
}

pub fn playlist_images_url(playlist_id: &str) -> (s: String)
    ensures
        s@ == playlist_images_url_spec(playlist_id@),
{
    concat3("https://api.spotify.com/v1/playlists/", playlist_id, "/images")
}

pub fn playlist_web_url(playlist_id: &str) -> (s: String)
    ensures
        s@ == playlist_web_url_spec(playlist_id@),
{
    concat2("https://open.spotify.com/playlist/", playlist_id)
}

} // verus!

verus! {

/// The next thing the shuffle of a playlist needs done outside the library.
pub enum ShuffleAction {
    /// Look up the current user's Spotify id.
    GetUserId,
    /// Fetch every track of the playlist.
    FetchTracks { playlist_id: String },
    /// Create a private playlist with this name and description at `url`.
    CreatePlaylist { url: String, name: String, description: String },
    /// Add these URIs at `url`; pause briefly afterwards when `pause_after`.
    AddTracks { url: String, uris: Vec<String>, pause_after: bool },
    /// Fetch the original playlist, for its cover image.
    FetchOriginalPlaylist { playlist_id: String },
    /// Download the cover image at `url`.
    FetchImage { url: String },
    /// Upload `body` (the image, base64-encoded) as the new playlist's cover at `url`.
    UploadImage { url: String, body: String },
    /// The shuffled copy exists.
    Finished(NewPlaylistDetails),
    Failed(String),
}

/// The state of one shuffle of a playlist into a new one.
pub struct ShuffleJob {
    pub original_id: String,
    pub original_name: String,
    pub user_id: String,
    pub new_playlist_id: String,
    /// The shuffled URIs in batches of 100, in the order they are sent.
    pub batches: Vec<Vec<String>>,
    /// How many batches have been handed out.
    pub sent: usize,
    /// How many URIs there are in all.
    pub total: usize,
}

/// The details of the finished copy.
pub open spec fn details_spec(job: ShuffleJob) -> (Seq<char>, Seq<char>, Seq<char>) {
    (
        job.new_playlist_id@,
        shuffled_name_spec(job.original_name@),
        playlist_web_url_spec(job.new_playlist_id@),
    )
}

pub open spec fn details_view(d: NewPlaylistDetails) -> (Seq<char>, Seq<char>, Seq<char>) {
    (d.id@, d.name@, d.external_url@)
}

/// The action after `sent` batches of `job` went out: the next batch, or the original playlist
/// once every batch is out.
pub open spec fn after_batches_spec(job: ShuffleJob, a: ShuffleAction, next: ShuffleJob) -> bool {
    &&& next.batches == job.batches
    &&& next.original_id == job.original_id
    &&& next.original_name == job.original_name
    &&& next.new_playlist_id == job.new_playlist_id
    &&& next.total == job.total
    &&& if job.sent < job.batches.len() {
        &&& next.sent == job.sent + 1
        &&& a matches ShuffleAction::AddTracks { url, uris, pause_after } && url@
            == playlist_tracks_url_spec(job.new_playlist_id@) && uris@ == job.batches@[job.sent as int]@
            && pause_after == pause_after_spec(job.total as nat, uris@.len())
    } else {
        &&& next.sent == job.sent
        &&& a matches ShuffleAction::FetchOriginalPlaylist { playlist_id } && playlist_id@
            == job.original_id@
    }
}

impl ShuffleJob {
    /// Starts shuffling a playlist: the user's id is needed first.
    pub fn new(original_id: String, original_name: String) -> (r: (ShuffleJob, ShuffleAction))
        ensures
            r.0.original_id == original_id,
            r.0.original_name == original_name,
            r.0.sent == 0,
            r.0.batches@.len() == 0,
            r.1 matches ShuffleAction::GetUserId,
    {
        (
            ShuffleJob {
                original_id,
                original_name,
                user_id: String::new(),
                new_playlist_id: String::new(),
                batches: Vec::new(),
                sent: 0,
                total: 0,
            },
            ShuffleAction::GetUserId,
        )
    }

    fn details(&self) -> (d: NewPlaylistDetails)
        ensures
            details_view(d) == details_spec(*self),
    {
        NewPlaylistDetails {
            id: self.new_playlist_id.clone(),
            name: shuffled_name(self.original_name.as_str()),
            external_url: playlist_web_url(self.new_playlist_id.as_str()),
        }
    }

    /// The user's id arrived (or could not be had): fetch the playlist's tracks next.
    pub fn on_user_id(&mut self, r: Result<String, String>) -> (a: ShuffleAction)
        ensures
            final(self).original_id == old(self).original_id,
            final(self).original_name == old(self).original_name,
            final(self).batches == old(self).batches,
            final(self).sent == old(self).sent,
            match r {
                Ok(id) => final(self).user_id == id && (a matches ShuffleAction::FetchTracks { playlist_id }
                    && playlist_id == old(self).original_id),
                Err(e) => a matches ShuffleAction::Failed(m) && m@ == "Failed to get user ID: "@ + e@,
            },
    {
        match r {
            Ok(id) => {
                self.user_id = id;
                ShuffleAction::FetchTracks { playlist_id: self.original_id.clone() }
            },
            Err(e) => {
                let mut m = String::from_str("Failed to get user ID: ");
                append(&mut m, e.as_str());
                ShuffleAction::Failed(m)
            },
        }
    }

    /// The tracks arrived: their URIs are shuffled and cut into batches, and the new playlist is
    /// to be created. An empty playlist, or a failed fetch, ends the shuffle.
    pub fn on_tracks(&mut self, r: Result<Vec<SpotifyTrackItem>, String>) -> (a: ShuffleAction)
        ensures
            final(self).original_id == old(self).original_id,
            final(self).original_name == old(self).original_name,
            final(self).user_id == old(self).user_id,
            r matches Err(e) ==> (a matches ShuffleAction::Failed(m) && m@ == "Failed to fetch tracks for '"@
                    + old(self).original_name@ + "': "@ + e@),
            r matches Ok(tracks) && tracks@.len() == 0 ==> (a matches ShuffleAction::Failed(m)
                && m@ == "Playlist '"@ + old(self).original_name@ + "' is empty."@),
            r is Ok && r->Ok_0@.len() > 0 ==> {
                &&& final(self).sent == 0
                &&& final(self).total == r->Ok_0@.len()
                &&& batch_views(final(self).batches@).flatten().to_multiset() == uris_of(
                    r->Ok_0@,
                ).to_multiset()
                &&& final(self).batches@.len() == batch_count(r->Ok_0@.len())
                &&& forall|k: int|
                    0 <= k < final(self).batches@.len() ==> (#[trigger] final(self).batches@[k])@.len()
                        <= 100
                &&& forall|k: int|
                    0 <= k < final(self).batches@.len() ==> is_batch(
                        batch_views(final(self).batches@).flatten(),
                        k,
                        (#[trigger] final(self).batches@[k])@,
                    )
                &&& a matches ShuffleAction::CreatePlaylist { url, name, description } && url@
                    == user_playlists_url_spec(old(self).user_id@) && name@ == shuffled_name_spec(
                    old(self).original_name@,
                ) && description@ == shuffled_description_spec(old(self).original_name@)
            },
    {
        match r {
            Err(e) => {
                let mut m = String::from_str("Failed to fetch tracks for '");
                append(&mut m, self.original_name.as_str());
                append(&mut m, "': ");
                append(&mut m, e.as_str());
                ShuffleAction::Failed(m)
            },
            Ok(tracks) => {
                if tracks.len() == 0 {
                    let mut m = String::from_str("Playlist '");
                    append(&mut m, self.original_name.as_str());
                    append(&mut m, "' is empty.");
                    return ShuffleAction::Failed(m);
                }
                let ghost ts = tracks@;
                let mut uris = track_uris(tracks);
                let ghost before = uris@;
                shuffle_in_place(&mut uris);
                let batches = batches_of(&uris);
                assert(before == uris_of(ts));
                assert(batch_views(batches@).flatten() == uris@);
                proof {
                    assert forall|k: int| 0 <= k < batches@.len() implies (#[trigger] batches@[k])@.len() <= 100 by {
                        assert(is_batch(uris@, k, batches@[k]@));
                    }
                }
                self.total = uris.len();
                self.batches = batches;
                self.sent = 0;
                ShuffleAction::CreatePlaylist {
                    url: user_playlists_url(self.user_id.as_str()),
                    name: shuffled_name(self.original_name.as_str()),
                    description: shuffled_description(self.original_name.as_str()),
                }
            },
        }
    }

    fn next_batch(&mut self) -> (a: ShuffleAction)
        ensures
            after_batches_spec(*old(self), a, *final(self)),
    {
        if self.sent < self.batches.len() {
            let uris = self.batches[self.sent].clone();
            assert(uris@ == self.batches@[self.sent as int]@);
            self.sent = self.sent + 1;
            let pause_after = pause_after(self.total, uris.len());
            ShuffleAction::AddTracks {
                url: playlist_tracks_url(self.new_playlist_id.as_str()),
                uris,
                pause_after,
            }
        } else {
            ShuffleAction::FetchOriginalPlaylist { playlist_id: self.original_id.clone() }
        }
    }

    /// The new playlist was created: its first batch of URIs goes out next.
    pub fn on_created(&mut self, r: Result<SpotifyPlaylistItem, String>) -> (a: ShuffleAction)
        ensures
            match r {
                Err(e) => a matches ShuffleAction::Failed(m) && m == e,
                Ok(p) => {
                    let created = ShuffleJob { new_playlist_id: p.id, sent: 0, ..*old(self) };
                    after_batches_spec(created, a, *final(self))
                },
            },
    {
        match r {
            Err(e) => ShuffleAction::Failed(e),
            Ok(p) => {
                self.new_playlist_id = p.id;
                self.sent = 0;
                self.next_batch()
            },
        }
    }

    /// A batch was added: the next batch goes out, or, after the last, the original playlist
    /// is fetched for its cover.
    pub fn on_tracks_added(&mut self, r: Result<(), String>) -> (a: ShuffleAction)
        ensures
            match r {
                Err(e) => a matches ShuffleAction::Failed(m) && m == e,
                Ok(_) => after_batches_spec(*old(self), a, *final(self)),
            },
    {
        match r {
            Err(e) => ShuffleAction::Failed(e),
            Ok(_) => self.next_batch(),
        }
    }

    /// The original playlist arrived: its first cover image is downloaded next; without one,
    /// or when the playlist could not be fetched, the shuffle is done.
    pub fn on_original(&self, r: Result<SpotifyPlaylistItem, String>) -> (a: ShuffleAction)
        ensures
            match r {
                Ok(p) => match p.images {
                    Some(imgs) => if imgs@.len() > 0 {
                        a matches ShuffleAction::FetchImage { url } && url == imgs@[0].url
                    } else {
                        a matches ShuffleAction::Finished(d) && details_view(d) == details_spec(*self)
                    },
                    None => a matches ShuffleAction::Finished(d) && details_view(d) == details_spec(*self),
                },
                Err(_) => a matches ShuffleAction::Finished(d) && details_view(d) == details_spec(*self),
            },
    {
        match r {
            Ok(p) => match p.images {
                Some(imgs) => {
                    if imgs.len() > 0 {
                        ShuffleAction::FetchImage { url: imgs[0].url.clone() }
                    } else {
                        ShuffleAction::Finished(self.details())
                    }
                },
                None => ShuffleAction::Finished(self.details()),
            },
            Err(_) => ShuffleAction::Finished(self.details()),
        }
    }

    /// The cover image's bytes arrived: they are uploaded, base64-encoded, as the new cover;
    /// when the download failed the shuffle is done.
    pub fn on_image(&self, r: Option<Vec<u8>>) -> (a: ShuffleAction)
        requires
            r matches Some(b) ==> b@.len() <= usize::MAX / 2,
        ensures
            match r {
                Some(bytes) => a matches ShuffleAction::UploadImage { url, body } && url@
                    == playlist_images_url_spec(self.new_playlist_id@) && body@ == base64_standard_spec(
                    bytes@,
                ),
                None => a matches ShuffleAction::Finished(d) && details_view(d) == details_spec(*self),
            },
    {
        match r {
            Some(bytes) => ShuffleAction::UploadImage {
                url: playlist_images_url(self.new_playlist_id.as_str()),
                body: encode_base64_standard(bytes.as_slice()),
            },
            None => ShuffleAction::Finished(self.details()),
        }
    }

    /// The upload is over, whatever came of it: the shuffle is done.
    pub fn on_uploaded(&self, r: Result<(), String>) -> (a: ShuffleAction)
        ensures
            a matches ShuffleAction::Finished(d) && details_view(d) == details_spec(*self),
    {
        ShuffleAction::Finished(self.details())
    }
}

} // verus!

verus! {

/// The stage the shuffle page is in.
#[derive(PartialEq, Clone, Debug)]
pub enum ShuffleStage {
    Idle,
    FetchingTracks,
    ShufflingAndCreatingPlaylist { num_tracks_to_shuffle: usize },
    Completed(NewPlaylistDetails),
    Error(String),
}

/// What happens on the shuffle page.
pub enum ShuffleEvent {
    /// The start button, shown while idle, was pressed.
    Start,
    /// The playlist's tracks arrived: how many, or the fetch error's text.
    TracksFetched(Result<usize, String>),
    /// The fetched tracks were gone when shuffling was to begin.
    TracksLost,
    /// The shuffle into a new playlist ended.
    ShuffleFinished(Result<NewPlaylistDetails, String>),
    /// The retry button, shown after an error, was pressed.
    Retry,
}

/// A `ShuffleStage` with its error message as characters.
pub enum ShuffleStageView {
    Idle,
    FetchingTracks,
    ShufflingAndCreatingPlaylist { num_tracks_to_shuffle: usize },
    Completed(NewPlaylistDetails),
    Error(Seq<char>),
}

impl View for ShuffleStage {
    type V = ShuffleStageView;

    open spec fn view(&self) -> ShuffleStageView {
        match self {
            ShuffleStage::Idle => ShuffleStageView::Idle,
            ShuffleStage::FetchingTracks => ShuffleStageView::FetchingTracks,
            ShuffleStage::ShufflingAndCreatingPlaylist { num_tracks_to_shuffle } =>
                ShuffleStageView::ShufflingAndCreatingPlaylist {
                num_tracks_to_shuffle: *num_tracks_to_shuffle,
            },
            ShuffleStage::Completed(d) => ShuffleStageView::Completed(*d),
            ShuffleStage::Error(m) => ShuffleStageView::Error(m@),
        }
    }
}

/// The stage after `e` in stage `s`. The buttons act only where they are shown; the results of
/// the background work replace the stage whenever they arrive.
pub open spec fn next_stage_spec(s: ShuffleStageView, e: ShuffleEvent) -> ShuffleStageView {
    match e {
        ShuffleEvent::Start => if s is Idle { ShuffleStageView::FetchingTracks } else { s },
        ShuffleEvent::Retry => if s is Error { ShuffleStageView::Idle } else { s },
        ShuffleEvent::TracksFetched(Ok(n)) => if n == 0 {
            ShuffleStageView::Error("Selected playlist is empty or no tracks were found."@)
        } else {
            ShuffleStageView::ShufflingAndCreatingPlaylist { num_tracks_to_shuffle: n }
        },
        ShuffleEvent::TracksFetched(Err(m)) => ShuffleStageView::Error(
            "Failed to fetch tracks: "@ + m@,
        ),
        ShuffleEvent::TracksLost => ShuffleStageView::Error(
            "Track data was lost before shuffling could start. Please retry."@,
        ),
        ShuffleEvent::ShuffleFinished(Ok(d)) => ShuffleStageView::Completed(d),
        ShuffleEvent::ShuffleFinished(Err(m)) => ShuffleStageView::Error(
            "Failed to shuffle and save playlist: "@ + m@,
        ),
    }
}

impl ShuffleStage {
    /// The stage after `e`.
    pub fn next(self, e: ShuffleEvent) -> (r: ShuffleStage)
        ensures
            r@ == next_stage_spec(self@, e),
    {
        match e {
            ShuffleEvent::Start => match self {
                ShuffleStage::Idle => ShuffleStage::FetchingTracks,
                other => other,
            },
            ShuffleEvent::Retry => match self {
                ShuffleStage::Error(_) => ShuffleStage::Idle,
                other => other,
            },
            ShuffleEvent::TracksFetched(Ok(n)) => if n == 0 {
                ShuffleStage::Error(
                    String::from_str("Selected playlist is empty or no tracks were found."),
                )
            } else {
                ShuffleStage::ShufflingAndCreatingPlaylist { num_tracks_to_shuffle: n }
            },
            ShuffleEvent::TracksFetched(Err(m)) => {
                let mut s = String::from_str("Failed to fetch tracks: ");
                append(&mut s, m.as_str());
                ShuffleStage::Error(s)
            },
            ShuffleEvent::TracksLost => ShuffleStage::Error(
                String::from_str("Track data was lost before shuffling could start. Please retry."),
            ),
            ShuffleEvent::ShuffleFinished(Ok(d)) => ShuffleStage::Completed(d),
            ShuffleEvent::ShuffleFinished(Err(m)) => {
                let mut s = String::from_str("Failed to shuffle and save playlist: ");
                append(&mut s, m.as_str());
                ShuffleStage::Error(s)
            },
        }
    }
}

/// The background work a stage of the shuffle page starts.
#[derive(PartialEq, Eq, Clone, Copy, Debug, Structural)]
pub enum StageWork {
    /// Fetch the playlist's tracks; answered by `TracksFetched`.
    FetchTracks,
    /// Shuffle the fetched tracks into a new playlist; answered by `ShuffleFinished`, or by
    /// `TracksLost` when the fetched tracks are gone.
    ShuffleAndSave,
    Nothing,
}

/// The work stage `s` starts: fetching while fetching, shuffling while shuffling, else none.
pub open spec fn stage_work_spec(s: ShuffleStageView) -> StageWork {
    match s {
        ShuffleStageView::FetchingTracks => StageWork::FetchTracks,
        ShuffleStageView::ShufflingAndCreatingPlaylist { .. } => StageWork::ShuffleAndSave,
        _ => StageWork::Nothing,
    }
}

impl ShuffleStage {
    /// The work this stage starts.
    pub fn work(&self) -> (w: StageWork)
        ensures
            w == stage_work_spec(self@),
    {
        match self {
            ShuffleStage::FetchingTracks => StageWork::FetchTracks,
            ShuffleStage::ShufflingAndCreatingPlaylist { .. } => StageWork::ShuffleAndSave,
            _ => StageWork::Nothing,
        }
    }
}

/// Whether `e` can happen in stage `s`: a button press, or the answer to the work `s` started.
pub open spec fn admissible(s: ShuffleStageView, e: ShuffleEvent) -> bool {
    match e {
        ShuffleEvent::Start | ShuffleEvent::Retry => true,
        ShuffleEvent::TracksFetched(_) => stage_work_spec(s) == StageWork::FetchTracks,
        ShuffleEvent::TracksLost | ShuffleEvent::ShuffleFinished(_) => stage_work_spec(s) == StageWork::ShuffleAndSave,
    }
}

/// The stages the page passes through from `s` as the events `es` happen, `s` first.
pub open spec fn stages_after(s: ShuffleStageView, es: Seq<ShuffleEvent>) -> Seq<ShuffleStageView>
    decreases es.len(),
{
    if es.len() == 0 {
        seq![s]
    } else {
        let before = stages_after(s, es.drop_last());
        before.push(next_stage_spec(before.last(), es.last()))
    }
}

/// Whether every event of `es` can happen in the stage it arrives in, starting from `s`.
pub open spec fn admissible_run(s: ShuffleStageView, es: Seq<ShuffleEvent>) -> bool {
    forall|i: int| 0 <= i < es.len() ==> admissible(#[trigger] stages_after(s, es)[i], es[i])
}

proof fn lemma_stages_after_len(s: ShuffleStageView, es: Seq<ShuffleEvent>)
    ensures
        stages_after(s, es).len() == es.len() + 1,
        stages_after(s, es)[0] == s,
    decreases es.len(),
{
    if es.len() > 0 {
        lemma_stages_after_len(s, es.drop_last());
    }
}

/// A completed stage is entered only from shuffling, and shuffling only from fetching, with
/// the number of tracks found.
pub proof fn law_completed_only_after_shuffling(s: ShuffleStageView, e: ShuffleEvent)
    requires
        admissible(s, e),
    ensures
        next_stage_spec(s, e) is Completed ==> s is Completed || s is ShufflingAndCreatingPlaylist,
        next_stage_spec(s, e) is ShufflingAndCreatingPlaylist ==> s is ShufflingAndCreatingPlaylist
            || (s is FetchingTracks && (e matches ShuffleEvent::TracksFetched(Ok(n)) && n > 0)),
{
}

/// In every run of the page from idle in which each result answers the work of its stage, a
/// completed stage comes after a shuffling stage, which comes after a fetching stage.
pub proof fn law_run_completes_only_after_fetch_and_shuffle(es: Seq<ShuffleEvent>, j: int)
    requires
        admissible_run(ShuffleStageView::Idle, es),
        0 <= j <= es.len(),
        stages_after(ShuffleStageView::Idle, es)[j] is Completed,
    ensures
        exists|a: int, b: int|
            0 <= a < b < j && (#[trigger] stages_after(ShuffleStageView::Idle, es)[a]) is FetchingTracks
                && (#[trigger] stages_after(ShuffleStageView::Idle, es)[b]) is ShufflingAndCreatingPlaylist,
    decreases j,
{
    let st = stages_after(ShuffleStageView::Idle, es);
    lemma_stages_after_len(ShuffleStageView::Idle, es);
    assert(j > 0);
    lemma_stages_prefix(ShuffleStageView::Idle, es, j - 1);
    let p = st[j - 1];
    law_completed_only_after_shuffling(p, es[j - 1]);
    if p is Completed {
        law_run_completes_only_after_fetch_and_shuffle(es, j - 1);
    } else {
        lemma_shuffling_after_fetch(es, j - 1);
    }
}

proof fn lemma_shuffling_after_fetch(es: Seq<ShuffleEvent>, j: int)
    requires
        admissible_run(ShuffleStageView::Idle, es),
        0 <= j <= es.len(),
        stages_after(ShuffleStageView::Idle, es)[j] is ShufflingAndCreatingPlaylist,
    ensures
        exists|a: int| 0 <= a < j && (#[trigger] stages_after(ShuffleStageView::Idle, es)[a]) is FetchingTracks,
    decreases j,
{
    let st = stages_after(ShuffleStageView::Idle, es);
    lemma_stages_after_len(ShuffleStageView::Idle, es);
    assert(j > 0);
    lemma_stages_prefix(ShuffleStageView::Idle, es, j - 1);
    let p = st[j - 1];
    law_completed_only_after_shuffling(p, es[j - 1]);
    if p is ShufflingAndCreatingPlaylist {
        lemma_shuffling_after_fetch(es, j - 1);
    } else {
        assert(st[j - 1] is FetchingTracks);
    }
}

proof fn lemma_stages_prefix(s: ShuffleStageView, es: Seq<ShuffleEvent>, i: int)
    requires
        0 <= i < es.len(),
    ensures
        stages_after(s, es)[i + 1] == next_stage_spec(stages_after(s, es)[i], es[i]),
    decreases es.len(),
{
    lemma_stages_after_len(s, es.drop_last());
    if i < es.len() - 1 {
        lemma_stages_prefix(s, es.drop_last(), i);
        lemma_stages_after_len(s, es.drop_last());
        assert(stages_after(s, es)[i] == stages_after(s, es.drop_last())[i]);
        assert(stages_after(s, es)[i + 1] == stages_after(s, es.drop_last())[i + 1]);
        assert(es.drop_last()[i] == es[i]);
    }
}

/// Only the retry button leaves an error, and it leads back to the start.
pub proof fn law_error_left_only_by_retry(m: Seq<char>, e: ShuffleEvent)
    requires
        (e is Start || e is Retry),
    ensures
        next_stage_spec(ShuffleStageView::Error(m), e) == (if e is Retry {
            ShuffleStageView::Idle
        } else {
            ShuffleStageView::Error(m)
        }),
{
}

/// A fetch that found tracks always leads to shuffling exactly that many; one that found none
/// never does.
pub proof fn law_shuffling_needs_tracks(s: ShuffleStageView, n: usize)
    ensures
        n > 0 ==> next_stage_spec(s, ShuffleEvent::TracksFetched(Ok(n)))
            == (ShuffleStageView::ShufflingAndCreatingPlaylist { num_tracks_to_shuffle: n }),
        n == 0 ==> (next_stage_spec(s, ShuffleEvent::TracksFetched(Ok(n))) is Error),
{
}

} // verus!
