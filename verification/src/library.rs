//! The music library's reads: page URLs, the node types offered for filtering, the songs
//! handed to the language model, and the features asked for by id.
use vstd::prelude::*;
use vstd::string::StringExecFns;
use crate::models::{LLMSongFeatures, SpotifyTrackItem, SpotifyArtistSimple, primary_artist_spec};
use crate::paging::{url_with_query, url_with_query_spec, has_hash, contains_hash, lemma_no_hash_concat};
use crate::text::{decimal, decimal_string, pair_views, append, join, join_spec, views};

verus! {

/// The most track ids whose features are asked for at once.
pub const FEATURE_IDS_LIMIT: usize = 100;

/// The ids worth analysing: the non-empty ones, at most the first hundred of them.
pub open spec fn valid_ids(ids: Seq<String>) -> Seq<String>
    decreases ids.len(),
{
    if ids.len() == 0 {
        Seq::empty()
    } else {
        let r = valid_ids(ids.drop_last());
        if ids.last()@.len() > 0 && r.len() < 100 {
            r.push(ids.last())
        } else {
            r
        }
    }
}

proof fn lemma_valid_ids_len(ids: Seq<String>)
    ensures
        valid_ids(ids).len() <= 100,
    decreases ids.len(),
{
    if ids.len() > 0 {
        lemma_valid_ids_len(ids.drop_last());
    }
}

/// The non-empty ids, at most a hundred.
pub fn valid_feature_ids(ids: Vec<String>) -> (r: Vec<String>)
    ensures
        r@ == valid_ids(ids@),
        r@.len() <= 100,
{
    let ghost all = ids@;
    let n = ids.len();
    let mut r: Vec<String> = Vec::new();
    let mut k: usize = 0;
    for id in it: ids.into_iter()
        invariant
            it.seq() == all,
            n == all.len(),
            k == it.index(),
            r@ == valid_ids(all.take(k as int)),
    {
        assert(all.take(k + 1).drop_last() == all.take(k as int));
        assert(all.take(k + 1).last() == id);
        proof {
            lemma_valid_ids_len(all.take(k as int));
        }
        if !id.as_str().is_empty() && r.len() < FEATURE_IDS_LIMIT {
            r.push(id);
        }
        k = k + 1;
    }
    assert(all.take(n as int) == all);
    proof {
        lemma_valid_ids_len(all);
    }
    r
}

/// The `k`-th group of at most fifty ids, the most Spotify's track lookup takes at once.
pub open spec fn lookup_chunk(ids: Seq<String>, k: int) -> Seq<String> {
    let end = if (k + 1) * 50 < ids.len() { (k + 1) * 50 } else { ids.len() as int };
    ids.subrange(k * 50, end)
}

/// The number of groups of fifty that `n` ids fill.
pub open spec fn lookup_chunk_count(n: nat) -> nat {
    if n == 0 { 0 } else { ((n - 1) / 50 + 1) as nat }
}

/// The lookup of the tracks with these ids: Spotify's several-tracks endpoint with the ids
/// joined by commas.
pub open spec fn lookup_url_spec(chunk: Seq<String>) -> Option<Seq<char>> {
    url_with_query_spec("https://api.spotify.com/v1/tracks"@, seq![("ids"@, join_spec(views(chunk), ","@))])
}

/// Whether every group of `ids` has a lookup URL.
pub open spec fn all_lookups_valid(ids: Seq<String>) -> bool {
    forall|k: int| 0 <= k < lookup_chunk_count(ids.len()) ==> (#[trigger] lookup_url_spec(lookup_chunk(ids, k))) is Some
}

/// The tracks that a lookup found, in order (unknown ids come back empty).
pub open spec fn found_tracks(s: Seq<Option<SpotifyTrackItem>>) -> Seq<SpotifyTrackItem>
    decreases s.len(),
{
    if s.len() == 0 {
        Seq::empty()
    } else {
        let r = found_tracks(s.drop_last());
        match s.last() {
            Some(t) => r.push(t),
            None => r,
        }
    }
}

/// The index of the first analysis of the song `id`, if any.
pub open spec fn first_with_id(fs: Seq<LLMSongFeatures>, id: Seq<char>) -> Option<int>
    decreases fs.len(),
{
    if fs.len() == 0 {
        None
    } else {
        match first_with_id(fs.drop_last(), id) {
            Some(k) => Some(k),
            None => if fs.last().song_id@ == id { Some(fs.len() - 1) } else { None },
        }
    }
}

/// What answering a features request for `ids` needs done next.
pub enum AudioFeaturesAction {
    /// Look the tracks up at each URL, in order, and hand back their `tracks` lists joined.
    FetchTracks { urls: Vec<String> },
    /// Have these tracks analysed by the language model.
    Analyse { tracks: Vec<SpotifyTrackItem> },
    /// The answer: for the `i`-th id, the index in `features` of its analysis, if there is one.
    Done { features: Vec<LLMSongFeatures>, for_ids: Vec<Option<usize>> },
    Failed(String),
}

/// A features request for a batch of track ids.
pub struct AudioFeaturesJob {
    /// The ids asked for: the non-empty ones, at most a hundred.
    pub ids: Vec<String>,
}

/// Whether `a` is the answer for `ids` from the analyses `fs`.
pub open spec fn answer_spec(ids: Seq<String>, fs: Seq<LLMSongFeatures>, a: AudioFeaturesAction) -> bool {
    a matches AudioFeaturesAction::Done { features, for_ids } && features@ == fs && for_ids@.len() == ids.len()
        && forall|i: int|
        0 <= i < ids.len() ==> match #[trigger] for_ids@[i] {
            Some(k) => first_with_id(fs, ids[i]@) == Some(k as int),
            None => first_with_id(fs, ids[i]@) is None,
        }
}

fn first_index(fs: &Vec<LLMSongFeatures>, id: &String) -> (r: Option<usize>)
    ensures
        match r {
            Some(k) => first_with_id(fs@, id@) == Some(k as int),
            None => first_with_id(fs@, id@) is None,
        },
{
    let mut j: usize = 0;
    while j < fs.len()
        invariant
            j <= fs.len(),
            first_with_id(fs@.take(j as int), id@) is None,
        decreases fs.len() - j,
    {
        assert(fs@.take(j + 1).drop_last() == fs@.take(j as int));
        if fs[j].song_id == *id {
            proof {
                lemma_first_with_id_extends(fs@, j as int + 1, id@);
            }
            return Some(j);
        }
        j = j + 1;
    }
    assert(fs@.take(fs.len() as int) == fs@);
    None
}

proof fn lemma_first_with_id_extends(fs: Seq<LLMSongFeatures>, k: int, id: Seq<char>)
    requires
        0 <= k <= fs.len(),
        first_with_id(fs.take(k), id) is Some,
    ensures
        first_with_id(fs, id) == first_with_id(fs.take(k), id),
    decreases fs.len() - k,
{
    if k < fs.len() {
        assert(fs.take(k + 1).drop_last() == fs.take(k));
        lemma_first_with_id_extends(fs, k + 1, id);
    } else {
        assert(fs.take(k) == fs);
    }
}

fn lookup_urls(ids: &Vec<String>) -> (r: Option<Vec<String>>)
    ensures
        match r {
            Some(urls) => all_lookups_valid(ids@) && urls@.len() == lookup_chunk_count(ids@.len()) && forall|k: int|
                0 <= k < urls@.len() ==> lookup_url_spec(lookup_chunk(ids@, k)) == Some(
                    (#[trigger] urls@[k])@,
                ),
            None => !all_lookups_valid(ids@),
        },
{
    let n = ids.len();
    let mut urls: Vec<String> = Vec::new();
    let mut start: usize = 0;
    while start < n
        invariant
            n == ids.len(),
            start <= n,
            start == (if 50 * urls.len() < n { 50 * urls.len() } else { n as int }),
            start < n ==> urls.len() < lookup_chunk_count(n as nat),
            start == n ==> urls.len() == lookup_chunk_count(n as nat),
            forall|k: int|
                0 <= k < urls@.len() ==> lookup_url_spec(lookup_chunk(ids@, k)) == Some((#[trigger] urls@[k])@),
        decreases n - start,
    {
        let end = if n - start > 50 { start + 50 } else { n };
        let mut chunk: Vec<String> = Vec::new();
        let mut j = start;
        while j < end
            invariant
                start <= j <= end <= n,
                n == ids.len(),
                chunk@ == ids@.subrange(start as int, j as int),
            decreases end - j,
        {
            chunk.push(ids[j].clone());
            assert(ids@.subrange(start as int, j + 1) == ids@.subrange(start as int, j as int).push(ids@[j as int]));
            j = j + 1;
        }
        assert(chunk@ == lookup_chunk(ids@, urls.len() as int));
        let joined = join(&chunk, ",");
        let mut pairs: Vec<(String, String)> = Vec::new();
        pairs.push((String::from_str("ids"), joined));
        proof {
            reveal_strlit("ids");
        }
        assert(pair_views(pairs@) =~= seq![("ids"@, join_spec(views(chunk@), ","@))]);
        proof {
            reveal_strlit("https://api.spotify.com/v1/tracks");
        }
        match url_with_query("https://api.spotify.com/v1/tracks", &pairs) {
            Some(u) => {
                let ghost old_urls = urls@;
                urls.push(u);
                assert forall|k: int|
                    0 <= k < urls@.len() implies lookup_url_spec(lookup_chunk(ids@, k)) == Some(
                    (#[trigger] urls@[k])@,
                ) by {
                    if k < old_urls.len() {
                        assert(urls@[k] == old_urls[k]);
                    }
                }
            },
            None => {
                assert(lookup_url_spec(lookup_chunk(ids@, urls.len() as int)) is None);
                return None;
            },
        }
        start = end;
    }
    assert forall|k: int| 0 <= k < lookup_chunk_count(ids@.len()) implies (#[trigger] lookup_url_spec(
        lookup_chunk(ids@, k),
    )) is Some by {
        assert(lookup_url_spec(lookup_chunk(ids@, k)) == Some(urls@[k]@));
    }
    Some(urls)
}

fn answer(ids: &Vec<String>, fs: Vec<LLMSongFeatures>) -> (a: AudioFeaturesAction)
    ensures
        answer_spec(ids@, fs@, a),
{
    let mut for_ids: Vec<Option<usize>> = Vec::new();
    let mut i: usize = 0;
    while i < ids.len()
        invariant
            i <= ids.len(),
            for_ids@.len() == i,
            forall|q: int|
                0 <= q < i ==> match #[trigger] for_ids@[q] {
                    Some(k) => first_with_id(fs@, ids@[q]@) == Some(k as int),
                    None => first_with_id(fs@, ids@[q]@) is None,
                },
        decreases ids.len() - i,
    {
        let k = first_index(&fs, &ids[i]);
        for_ids.push(k);
        i = i + 1;
    }
    AudioFeaturesAction::Done { features: fs, for_ids }
}

impl AudioFeaturesJob {
    /// Starts a features request: the non-empty ids, at most a hundred, are looked up on
    /// Spotify in groups of fifty; with none left the answer is empty at once.
    pub fn new(track_ids: Vec<String>) -> (r: (AudioFeaturesJob, AudioFeaturesAction))
        ensures
            r.0.ids@ == valid_ids(track_ids@),
            r.0.ids@.len() == 0 ==> answer_spec(r.0.ids@, Seq::empty(), r.1),
            r.0.ids@.len() > 0 && all_lookups_valid(r.0.ids@) ==> (r.1 matches AudioFeaturesAction::FetchTracks { urls }
                && urls@.len() == lookup_chunk_count(r.0.ids@.len()) && forall|k: int|
                0 <= k < urls@.len() ==> lookup_url_spec(lookup_chunk(r.0.ids@, k)) == Some(
                    (#[trigger] urls@[k])@,
                )),
            r.0.ids@.len() > 0 && !all_lookups_valid(r.0.ids@) ==> (r.1 matches AudioFeaturesAction::Failed(m)
                && m@ == "Invalid track lookup URL"@),
    {
        let ids = valid_feature_ids(track_ids);
        if ids.len() == 0 {
            let a = answer(&ids, Vec::new());
            return (AudioFeaturesJob { ids }, a);
        }
        let a = match lookup_urls(&ids) {
            Some(urls) => AudioFeaturesAction::FetchTracks { urls },
            None => AudioFeaturesAction::Failed(String::from_str("Invalid track lookup URL")),
        };
        (AudioFeaturesJob { ids }, a)
    }

    /// The lookups came back (their `tracks` lists joined in order): the tracks found are to be
    /// analysed; when none was found the answer is empty for every id.
    pub fn on_tracks(&self, r: Result<Vec<Option<SpotifyTrackItem>>, String>) -> (a: AudioFeaturesAction)
        ensures
            match r {
                Err(e) => a matches AudioFeaturesAction::Failed(m) && m == e,
                Ok(found) => if found_tracks(found@).len() == 0 {
                    answer_spec(self.ids@, Seq::empty(), a)
                } else {
                    a matches AudioFeaturesAction::Analyse { tracks } && tracks@ == found_tracks(found@)
                },
            },
    {
        match r {
            Err(e) => AudioFeaturesAction::Failed(e),
            Ok(found) => {
                let ghost all = found@;
                let n = found.len();
                let mut tracks: Vec<SpotifyTrackItem> = Vec::new();
                let mut k: usize = 0;
                for t in it: found.into_iter()
                    invariant
                        it.seq() == all,
                        n == all.len(),
                        k == it.index(),
                        tracks@ == found_tracks(all.take(k as int)),
                {
                    assert(all.take(k + 1).drop_last() == all.take(k as int));
                    assert(all.take(k + 1).last() == t);
                    match t {
                        Some(x) => tracks.push(x),
                        None => {},
                    }
                    k = k + 1;
                }
                assert(all.take(n as int) == all);
                if tracks.len() == 0 {
                    answer(&self.ids, Vec::new())
                } else {
                    AudioFeaturesAction::Analyse { tracks }
                }
            },
        }
    }

    /// The analyses came back: each id is answered with the first analysis of its song.
    pub fn on_features(&self, r: Result<Vec<LLMSongFeatures>, String>) -> (a: AudioFeaturesAction)
        ensures
            match r {
                Err(e) => a matches AudioFeaturesAction::Failed(m) && m == e,
                Ok(fs) => answer_spec(self.ids@, fs@, a),
            },
    {
        match r {
            Err(e) => AudioFeaturesAction::Failed(e),
            Ok(fs) => answer(&self.ids, fs),
        }
    }
}

/// Whether a playlist is already imported, from the first answer of the check query (the
/// playlist's id, read or failed): imported exactly when a row came back.
pub fn imported_from_first_row(first_row: Result<Option<String>, String>) -> (b: bool)
    ensures
        b == (first_row is Ok && first_row->Ok_0 is Some),
{
    match first_row {
        Ok(Some(_)) => true,
        _ => false,
    }
}

/// The features of a single track: the first answer of the batch, if any.
pub fn single_audio_features(v: Vec<Option<LLMSongFeatures>>) -> (r: Option<LLMSongFeatures>)
    ensures
        r == (if v@.len() > 0 { v@[0] } else { None }),
{
    let mut v = v;
    if v.len() == 0 {
        None
    } else {
        v.swap_remove(0)
    }
}

/// The page of the user's playlists with this limit and offset.
pub fn playlists_page_url(limit: u32, offset: u32) -> (r: Option<String>)
    ensures
        url_with_query_spec(
            "https://api.spotify.com/v1/me/playlists"@,
            seq![("limit"@, decimal(limit as nat)), ("offset"@, decimal(offset as nat))],
        ) == (match r {
            Some(u) => Some(u@),
            None => None::<Seq<char>>,
        }),
{
    let mut pairs: Vec<(String, String)> = Vec::new();
    pairs.push((String::from_str("limit"), decimal_string(limit as u64)));
    pairs.push((String::from_str("offset"), decimal_string(offset as u64)));
    assert(pair_views(pairs@) =~= seq![("limit"@, decimal(limit as nat)), ("offset"@, decimal(offset as nat))]);
    proof {
        reveal_strlit("https://api.spotify.com/v1/me/playlists");
    }
    url_with_query("https://api.spotify.com/v1/me/playlists", &pairs)
}

/// The fields asked for with each page of a playlist's tracks.
pub open spec fn track_fields() -> Seq<char> {
    "items(track(id,name,uri,artists(id,name))),limit,offset,total,next"@
}

/// The page of a playlist's tracks at this offset and limit; `None` for a playlist id holding
/// a `#`, which would turn the rest of the address into a fragment.
pub fn tracks_page_url(playlist_id: &str, limit: u32, offset: u32) -> (r: Option<String>)
    ensures
        has_hash(playlist_id@) ==> r is None,
        !has_hash(playlist_id@) ==> url_with_query_spec(
            "https://api.spotify.com/v1/playlists/"@ + playlist_id@ + "/tracks"@,
            seq![
                ("offset"@, decimal(offset as nat)),
                ("limit"@, decimal(limit as nat)),
                ("fields"@, track_fields()),
            ],
        ) == (match r {
            Some(u) => Some(u@),
            None => None::<Seq<char>>,
        }),
{
    if contains_hash(playlist_id) {
        return None;
    }
    let mut base = String::from_str("https://api.spotify.com/v1/playlists/");
    append(&mut base, playlist_id);
    append(&mut base, "/tracks");
    proof {
        reveal_strlit("https://api.spotify.com/v1/playlists/");
        reveal_strlit("/tracks");
        lemma_no_hash_concat("https://api.spotify.com/v1/playlists/"@, playlist_id@);
        lemma_no_hash_concat("https://api.spotify.com/v1/playlists/"@ + playlist_id@, "/tracks"@);
    }
    let mut pairs: Vec<(String, String)> = Vec::new();
    pairs.push((String::from_str("offset"), decimal_string(offset as u64)));
    pairs.push((String::from_str("limit"), decimal_string(limit as u64)));
    pairs.push((String::from_str("fields"), String::from_str("items(track(id,name,uri,artists(id,name))),limit,offset,total,next")));
    assert(pair_views(pairs@) =~= seq![
        ("offset"@, decimal(offset as nat)),
        ("limit"@, decimal(limit as nat)),
        ("fields"@, track_fields()),
    ]);
    url_with_query(base.as_str(), &pairs)
}

/// A playlist's own endpoint.
pub fn playlist_url(playlist_id: &str) -> (r: String)
    ensures
        r@ == "https://api.spotify.com/v1/playlists/"@ + playlist_id@,
{
    let mut r = String::from_str("https://api.spotify.com/v1/playlists/");
    append(&mut r, playlist_id);
    r
}

/// The node types offered for filtering, each with the query that counts its values' songs
/// (and, for genres, cultures and tags, averages the confidence).
pub fn node_type_queries() -> (r: Vec<(&'static str, &'static str)>)
    ensures
        r@.len() == 9,
        r@[0].0@ == "Genre"@,
        r@[0].1@ == "MATCH (n:Genre)<-[r:HAS_GENRE]-(s:Song) RETURN n.name as value, count(s) as song_count, avg(r.confidence) as confidence_avg"@,
        r@[1].0@ == "Language"@,
        r@[1].1@ == "MATCH (n:Language)<-[:SUNG_IN]-(s:Song) RETURN n.name as value, count(s) as song_count, null as confidence_avg"@,
        r@[2].0@ == "EnergyLevel"@,
        r@[2].1@ == "MATCH (n:EnergyLevel)<-[:HAS_ENERGY_LEVEL]-(s:Song) RETURN n.level as value, count(s) as song_count, null as confidence_avg"@,
        r@[3].0@ == "Valence"@,
        r@[3].1@ == "MATCH (n:Valence)<-[:HAS_VALENCE]-(s:Song) RETURN n.level as value, count(s) as song_count, null as confidence_avg"@,
        r@[4].0@ == "Culture"@,
        r@[4].1@ == "MATCH (n:Culture)<-[r:ORIGINATED_FROM]-(s:Song) RETURN n.name as value, count(s) as song_count, avg(r.confidence) as confidence_avg"@,
        r@[5].0@ == "Instrument"@,
        r@[5].1@ == "MATCH (n:Instrument)<-[:FEATURES_INSTRUMENT]-(s:Song) RETURN n.name as value, count(s) as song_count, null as confidence_avg"@,
        r@[6].0@ == "ProductionStyle"@,
        r@[6].1@ == "MATCH (n:ProductionStyle)<-[:HAS_PRODUCTION_STYLE]-(s:Song) RETURN n.name as value, count(s) as song_count, null as confidence_avg"@,
        r@[7].0@ == "VocalStyle"@,
        r@[7].1@ == "MATCH (n:VocalStyle)<-[:HAS_VOCAL_STYLE]-(s:Song) RETURN n.name as value, count(s) as song_count, null as confidence_avg"@,
        r@[8].0@ == "UserTag"@,
        r@[8].1@ == "MATCH (n:UserTag)<-[r:HAS_USER_TAG]-(s:Song) RETURN n.name as value, count(s) as song_count, avg(r.confidence) as confidence_avg"@,
{
    let mut r: Vec<(&'static str, &'static str)> = Vec::new();
    r.push(("Genre", "MATCH (n:Genre)<-[r:HAS_GENRE]-(s:Song) RETURN n.name as value, count(s) as song_count, avg(r.confidence) as confidence_avg"));
    r.push(("Language", "MATCH (n:Language)<-[:SUNG_IN]-(s:Song) RETURN n.name as value, count(s) as song_count, null as confidence_avg"));
    r.push(("EnergyLevel", "MATCH (n:EnergyLevel)<-[:HAS_ENERGY_LEVEL]-(s:Song) RETURN n.level as value, count(s) as song_count, null as confidence_avg"));
    r.push(("Valence", "MATCH (n:Valence)<-[:HAS_VALENCE]-(s:Song) RETURN n.level as value, count(s) as song_count, null as confidence_avg"));
    r.push(("Culture", "MATCH (n:Culture)<-[r:ORIGINATED_FROM]-(s:Song) RETURN n.name as value, count(s) as song_count, avg(r.confidence) as confidence_avg"));
    r.push(("Instrument", "MATCH (n:Instrument)<-[:FEATURES_INSTRUMENT]-(s:Song) RETURN n.name as value, count(s) as song_count, null as confidence_avg"));
    r.push(("ProductionStyle", "MATCH (n:ProductionStyle)<-[:HAS_PRODUCTION_STYLE]-(s:Song) RETURN n.name as value, count(s) as song_count, null as confidence_avg"));
    r.push(("VocalStyle", "MATCH (n:VocalStyle)<-[:HAS_VOCAL_STYLE]-(s:Song) RETURN n.name as value, count(s) as song_count, null as confidence_avg"));
    r.push(("UserTag", "MATCH (n:UserTag)<-[r:HAS_USER_TAG]-(s:Song) RETURN n.name as value, count(s) as song_count, avg(r.confidence) as confidence_avg"));
    r
}

/// What the model is told of one song: its id, its primary artist and its name.
pub fn llm_song_entries(tracks: &Vec<SpotifyTrackItem>) -> (r: Vec<(String, String, String)>)
    ensures
        r@.len() == tracks@.len(),
        forall|i: int|
            0 <= i < r@.len() ==> (#[trigger] r@[i]).0 == tracks@[i].id && r@[i].1@ == primary_artist_spec(
                tracks@[i].artists@,
            ) && r@[i].2 == tracks@[i].name,
{
    let mut r: Vec<(String, String, String)> = Vec::new();
    let mut i: usize = 0;
    while i < tracks.len()
        invariant
            i <= tracks.len(),
            r@.len() == i,
            forall|k: int|
                0 <= k < i ==> (#[trigger] r@[k]).0 == tracks@[k].id && r@[k].1@ == primary_artist_spec(
                    tracks@[k].artists@,
                ) && r@[k].2 == tracks@[k].name,
        decreases tracks.len() - i,
    {
        let t = &tracks[i];
        r.push((t.id.clone(), t.primary_artist(), t.name.clone()));
        i = i + 1;
    }
    r
}

/// A song read back from the database for enrichment: id, title, URI and artist names.
pub fn track_from_song_row(id: String, title: String, uri: String, artist_names: Vec<String>) -> (t: SpotifyTrackItem)
    ensures
        t.id == id,
        t.name == title,
        t.uri == uri,
        t.artists@.len() == artist_names@.len(),
        forall|i: int| 0 <= i < t.artists@.len() ==> (#[trigger] t.artists@[i]).id is None && t.artists@[i].name == artist_names@[i],
        t.album is None,
        t.duration_ms is None,
        t.explicit is None,
        t.audio_features is None,
{
    let ghost names = artist_names@;
    let n = artist_names.len();
    let mut artists: Vec<SpotifyArtistSimple> = Vec::new();
    let mut k: usize = 0;
    for name in it: artist_names.into_iter()
        invariant
            it.seq() == names,
            n == names.len(),
            k == it.index(),
            artists@.len() == k,
            forall|i: int| 0 <= i < k ==> (#[trigger] artists@[i]).id is None && artists@[i].name == names[i],
    {
        artists.push(SpotifyArtistSimple { id: None, name });
        k = k + 1;
    }
    SpotifyTrackItem {
        id,
        uri,
        name: title,
        artists,
        album: None,
        duration_ms: None,
        explicit: None,
        audio_features: None,
    }
}

/// The tracks analysed by the test page: the first three.
pub fn first_tracks(tracks: Vec<SpotifyTrackItem>, n: usize) -> (r: Vec<SpotifyTrackItem>)
    ensures
        r@ == tracks@.take(if n < tracks@.len() { n as int } else { tracks@.len() as int }),
{
    let mut v = tracks;
    if n < v.len() {
        v.truncate(n);
    }
    v
}

} // verus!
