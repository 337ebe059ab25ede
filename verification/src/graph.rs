//! What is written to the graph database: a song's features, and an imported playlist with its
//! tracks and artists. The library decides the writes; the caller runs them in order.
use vstd::prelude::*;
use vstd::string::StringExecFns;
use crate::models::{LLMSongFeatures, SpotifyPlaylistItem, SpotifyTrackItem, SpotifyArtistSimple, GenreFeature, CulturalFeature, UserTag};
use crate::text::{append, push_decimal, decimal};

verus! {

/// One write recording part of a song's features.
#[derive(Debug, Clone, PartialEq)]
pub enum FeatureWrite {
    /// The song node and its plain properties.
    Song { song_id: String, rhythmic_feel: Option<String>, density: String, confidence_level: String, confidence_explanation: String },
    Genre { song_id: String, name: String, confidence_bits: u64, is_primary: bool },
    Culture { song_id: String, name: String, confidence_bits: u64 },
    Language { song_id: String, language: String },
    Instrument { song_id: String, name: String },
    EnergyLevel { song_id: String, level: String },
    Valence { song_id: String, level: String },
    ProductionStyle { song_id: String, name: String },
    VocalStyle { song_id: String, name: String },
    UserTag { song_id: String, name: String, confidence_bits: u64 },
}

pub enum FeatureWriteView {
    Song { song_id: Seq<char>, rhythmic_feel: Option<Seq<char>>, density: Seq<char>, confidence_level: Seq<char>, confidence_explanation: Seq<char> },
    Genre { song_id: Seq<char>, name: Seq<char>, confidence_bits: u64, is_primary: bool },
    Culture { song_id: Seq<char>, name: Seq<char>, confidence_bits: u64 },
    Language { song_id: Seq<char>, language: Seq<char> },
    Instrument { song_id: Seq<char>, name: Seq<char> },
    EnergyLevel { song_id: Seq<char>, level: Seq<char> },
    Valence { song_id: Seq<char>, level: Seq<char> },
    ProductionStyle { song_id: Seq<char>, name: Seq<char> },
    VocalStyle { song_id: Seq<char>, name: Seq<char> },
    UserTag { song_id: Seq<char>, name: Seq<char>, confidence_bits: u64 },
}

pub open spec fn ov(o: Option<String>) -> Option<Seq<char>> {
    match o {
        Some(s) => Some(s@),
        None => None,
    }
}

impl View for FeatureWrite {
    type V = FeatureWriteView;

    open spec fn view(&self) -> FeatureWriteView {
        match self {
            FeatureWrite::Song { song_id, rhythmic_feel, density, confidence_level, confidence_explanation } =>
                FeatureWriteView::Song {
                song_id: song_id@,
                rhythmic_feel: ov(*rhythmic_feel),
                density: density@,
                confidence_level: confidence_level@,
                confidence_explanation: confidence_explanation@,
            },
            FeatureWrite::Genre { song_id, name, confidence_bits, is_primary } => FeatureWriteView::Genre {
                song_id: song_id@,
                name: name@,
                confidence_bits: *confidence_bits,
                is_primary: *is_primary,
            },
            FeatureWrite::Culture { song_id, name, confidence_bits } => FeatureWriteView::Culture {
                song_id: song_id@,
                name: name@,
                confidence_bits: *confidence_bits,
            },
            FeatureWrite::Language { song_id, language } => FeatureWriteView::Language {
                song_id: song_id@,
                language: language@,
            },
            FeatureWrite::Instrument { song_id, name } => FeatureWriteView::Instrument {
                song_id: song_id@,
                name: name@,
            },
            FeatureWrite::EnergyLevel { song_id, level } => FeatureWriteView::EnergyLevel {
                song_id: song_id@,
                level: level@,
            },
            FeatureWrite::Valence { song_id, level } => FeatureWriteView::Valence {
                song_id: song_id@,
                level: level@,
            },
            FeatureWrite::ProductionStyle { song_id, name } => FeatureWriteView::ProductionStyle {
                song_id: song_id@,
                name: name@,
            },
            FeatureWrite::VocalStyle { song_id, name } => FeatureWriteView::VocalStyle {
                song_id: song_id@,
                name: name@,
            },
            FeatureWrite::UserTag { song_id, name, confidence_bits } => FeatureWriteView::UserTag {
                song_id: song_id@,
                name: name@,
                confidence_bits: *confidence_bits,
            },
        }
    }
}

pub open spec fn write_views(w: Seq<FeatureWrite>) -> Seq<FeatureWriteView> {
    w.map_values(|x: FeatureWrite| x@)
}

pub open spec fn opt_write(o: Option<String>, f: spec_fn(Seq<char>) -> FeatureWriteView) -> Seq<FeatureWriteView> {
    match o {
        Some(s) => seq![f(s@)],
        None => Seq::empty(),
    }
}

pub open spec fn genre_writes(id: Seq<char>, gs: Seq<GenreFeature>) -> Seq<FeatureWriteView>
    decreases gs.len(),
{
    if gs.len() == 0 {
        Seq::empty()
    } else {
        let g = gs.last();
        genre_writes(id, gs.drop_last()).push(
            FeatureWriteView::Genre { song_id: id, name: g.name@, confidence_bits: g.confidence_bits, is_primary: g.is_primary },
        )
    }
}

pub open spec fn culture_writes(id: Seq<char>, cs: Seq<CulturalFeature>) -> Seq<FeatureWriteView>
    decreases cs.len(),
{
    if cs.len() == 0 {
        Seq::empty()
    } else {
        let c = cs.last();
        culture_writes(id, cs.drop_last()).push(
            FeatureWriteView::Culture { song_id: id, name: c.name@, confidence_bits: c.confidence_bits },
        )
    }
}

pub open spec fn instrument_writes(id: Seq<char>, is: Seq<String>) -> Seq<FeatureWriteView>
    decreases is.len(),
{
    if is.len() == 0 {
        Seq::empty()
    } else {
        instrument_writes(id, is.drop_last()).push(FeatureWriteView::Instrument { song_id: id, name: is.last()@ })
    }
}

pub open spec fn tag_writes(id: Seq<char>, ts: Seq<UserTag>) -> Seq<FeatureWriteView>
    decreases ts.len(),
{
    if ts.len() == 0 {
        Seq::empty()
    } else {
        let t = ts.last();
        tag_writes(id, ts.drop_last()).push(
            FeatureWriteView::UserTag { song_id: id, name: t.tag@, confidence_bits: t.confidence_bits },
        )
    }
}

/// The writes that record `f` for the song `id`, in order: the song, its genres, cultures,
/// language, instruments, energy level, valence, production style, vocal style and tags.
pub open spec fn feature_writes_spec(id: Seq<char>, f: LLMSongFeatures) -> Seq<FeatureWriteView> {
    seq![FeatureWriteView::Song {
        song_id: id,
        rhythmic_feel: ov(f.rhythmic_feel),
        density: f.density@,
        confidence_level: f.metadata_confidence.level@,
        confidence_explanation: f.metadata_confidence.explanation@,
    }] + genre_writes(id, f.genres@) + culture_writes(id, f.cultural_origins@)
        + opt_write(f.primary_language, |s: Seq<char>| FeatureWriteView::Language { song_id: id, language: s })
        + instrument_writes(id, f.instruments@)
        + opt_write(f.energy_level, |s: Seq<char>| FeatureWriteView::EnergyLevel { song_id: id, level: s })
        + opt_write(f.valence, |s: Seq<char>| FeatureWriteView::Valence { song_id: id, level: s })
        + opt_write(f.production_style, |s: Seq<char>| FeatureWriteView::ProductionStyle { song_id: id, name: s })
        + opt_write(f.vocal_presence, |s: Seq<char>| FeatureWriteView::VocalStyle { song_id: id, name: s })
        + tag_writes(id, f.user_facing_tags@)
}

fn clone_opt(o: &Option<String>) -> (r: Option<String>)
    ensures
        r == *o,
{
    match o {
        Some(s) => Some(s.clone()),
        None => None,
    }
}

fn push_genres(w: &mut Vec<FeatureWrite>, song_id: &String, gs: &Vec<GenreFeature>)
    ensures
        write_views(final(w)@) == write_views(old(w)@) + genre_writes(song_id@, gs@),
{
    let ghost s0 = write_views(w@);
    let mut i: usize = 0;
    while i < gs.len()
        invariant
            i <= gs.len(),
            write_views(w@) == s0 + genre_writes(song_id@, gs@.take(i as int)),
        decreases gs.len() - i,
    {
        let g = &gs[i];
        let ghost before = write_views(w@);
        w.push(FeatureWrite::Genre { song_id: song_id.clone(), name: g.name.clone(), confidence_bits: g.confidence_bits, is_primary: g.is_primary });
        assert(gs@.take(i + 1).drop_last() == gs@.take(i as int));
        assert(write_views(w@) =~= before.push(w@.last()@));
        i = i + 1;
    }
    assert(gs@.take(gs.len() as int) == gs@);
}

fn push_cultures(w: &mut Vec<FeatureWrite>, song_id: &String, cs: &Vec<CulturalFeature>)
    ensures
        write_views(final(w)@) == write_views(old(w)@) + culture_writes(song_id@, cs@),
{
    let ghost s0 = write_views(w@);
    let mut i: usize = 0;
    while i < cs.len()
        invariant
            i <= cs.len(),
            write_views(w@) == s0 + culture_writes(song_id@, cs@.take(i as int)),
        decreases cs.len() - i,
    {
        let c = &cs[i];
        let ghost before = write_views(w@);
        w.push(FeatureWrite::Culture { song_id: song_id.clone(), name: c.name.clone(), confidence_bits: c.confidence_bits });
        assert(cs@.take(i + 1).drop_last() == cs@.take(i as int));
        assert(write_views(w@) =~= before.push(w@.last()@));
        i = i + 1;
    }
    assert(cs@.take(cs.len() as int) == cs@);
}

fn push_instruments(w: &mut Vec<FeatureWrite>, song_id: &String, is: &Vec<String>)
    ensures
        write_views(final(w)@) == write_views(old(w)@) + instrument_writes(song_id@, is@),
{
    let ghost s0 = write_views(w@);
    let mut i: usize = 0;
    while i < is.len()
        invariant
            i <= is.len(),
            write_views(w@) == s0 + instrument_writes(song_id@, is@.take(i as int)),
        decreases is.len() - i,
    {
        let ghost before = write_views(w@);
        w.push(FeatureWrite::Instrument { song_id: song_id.clone(), name: is[i].clone() });
        assert(is@.take(i + 1).drop_last() == is@.take(i as int));
        assert(write_views(w@) =~= before.push(w@.last()@));
        i = i + 1;
    }
    assert(is@.take(is.len() as int) == is@);
}

fn push_tags(w: &mut Vec<FeatureWrite>, song_id: &String, ts: &Vec<UserTag>)
    ensures
        write_views(final(w)@) == write_views(old(w)@) + tag_writes(song_id@, ts@),
{
    let ghost s0 = write_views(w@);
    let mut i: usize = 0;
    while i < ts.len()
        invariant
            i <= ts.len(),
            write_views(w@) == s0 + tag_writes(song_id@, ts@.take(i as int)),
        decreases ts.len() - i,
    {
        let t = &ts[i];
        let ghost before = write_views(w@);
        w.push(FeatureWrite::UserTag { song_id: song_id.clone(), name: t.tag.clone(), confidence_bits: t.confidence_bits });
        assert(ts@.take(i + 1).drop_last() == ts@.take(i as int));
        assert(write_views(w@) =~= before.push(w@.last()@));
        i = i + 1;
    }
    assert(ts@.take(ts.len() as int) == ts@);
}

fn push_opt(w: &mut Vec<FeatureWrite>, o: &Option<String>, make: impl Fn(String) -> FeatureWrite, f: Ghost<spec_fn(Seq<char>) -> FeatureWriteView>)
    requires
        forall|s: String| #[trigger] make.requires((s,)),
        forall|s: String, r: FeatureWrite| make.ensures((s,), r) ==> r@ == f@(s@),
    ensures
        write_views(final(w)@) == write_views(old(w)@) + opt_write(*o, f@),
{
    let ghost before = write_views(w@);
    match o {
        Some(s) => {
            let x = make(s.clone());
            w.push(x);
            assert(write_views(w@) =~= before + opt_write(*o, f@));
        },
        None => {
            assert(write_views(w@) =~= before + opt_write(*o, f@));
        },
    }
}

/// The writes that record the features `f` of the song `song_id`.
pub fn feature_writes(song_id: &String, f: &LLMSongFeatures) -> (w: Vec<FeatureWrite>)
    ensures
        write_views(w@) == feature_writes_spec(song_id@, *f),
{
    let ghost id = song_id@;
    let mut w: Vec<FeatureWrite> = Vec::new();
    w.push(FeatureWrite::Song {
        song_id: song_id.clone(),
        rhythmic_feel: clone_opt(&f.rhythmic_feel),
        density: f.density.clone(),
        confidence_level: f.metadata_confidence.level.clone(),
        confidence_explanation: f.metadata_confidence.explanation.clone(),
    });
    push_genres(&mut w, song_id, &f.genres);
    push_cultures(&mut w, song_id, &f.cultural_origins);
    let sid = song_id.clone();
    push_opt(&mut w, &f.primary_language, |s: String| -> (r: FeatureWrite) ensures r@ == (FeatureWriteView::Language { song_id: sid@, language: s@ }) { FeatureWrite::Language { song_id: sid.clone(), language: s } }, Ghost(|s: Seq<char>| FeatureWriteView::Language { song_id: id, language: s }));
    push_instruments(&mut w, song_id, &f.instruments);
    push_opt(&mut w, &f.energy_level, |s: String| -> (r: FeatureWrite) ensures r@ == (FeatureWriteView::EnergyLevel { song_id: sid@, level: s@ }) { FeatureWrite::EnergyLevel { song_id: sid.clone(), level: s } }, Ghost(|s: Seq<char>| FeatureWriteView::EnergyLevel { song_id: id, level: s }));
    push_opt(&mut w, &f.valence, |s: String| -> (r: FeatureWrite) ensures r@ == (FeatureWriteView::Valence { song_id: sid@, level: s@ }) { FeatureWrite::Valence { song_id: sid.clone(), level: s } }, Ghost(|s: Seq<char>| FeatureWriteView::Valence { song_id: id, level: s }));
    push_opt(&mut w, &f.production_style, |s: String| -> (r: FeatureWrite) ensures r@ == (FeatureWriteView::ProductionStyle { song_id: sid@, name: s@ }) { FeatureWrite::ProductionStyle { song_id: sid.clone(), name: s } }, Ghost(|s: Seq<char>| FeatureWriteView::ProductionStyle { song_id: id, name: s }));
    push_opt(&mut w, &f.vocal_presence, |s: String| -> (r: FeatureWrite) ensures r@ == (FeatureWriteView::VocalStyle { song_id: sid@, name: s@ }) { FeatureWrite::VocalStyle { song_id: sid.clone(), name: s } }, Ghost(|s: Seq<char>| FeatureWriteView::VocalStyle { song_id: id, name: s }));
    push_tags(&mut w, song_id, &f.user_facing_tags);
    assert(write_views(w@) =~= feature_writes_spec(song_id@, *f));
    w
}

} // verus!

verus! {

/// One write of a playlist import.
#[derive(Debug, Clone, PartialEq)]
pub enum ImportWrite {
    /// The playlist node, owned by the user.
    Playlist { user_id: String, playlist_id: String, name: String, description: String, total_tracks: i64, image_url: String },
    /// A track node.
    Track { track_id: String, name: String, uri: String, duration_ms: i64, explicit: bool },
    /// The playlist contains the track.
    PlaylistTrack { playlist_id: String, track_id: String },
    /// An artist node.
    Artist { artist_id: String, name: String },
    /// The track is performed by the artist.
    TrackArtist { track_id: String, artist_id: String },
}

pub enum ImportWriteView {
    Playlist { user_id: Seq<char>, playlist_id: Seq<char>, name: Seq<char>, description: Seq<char>, total_tracks: i64, image_url: Seq<char> },
    Track { track_id: Seq<char>, name: Seq<char>, uri: Seq<char>, duration_ms: i64, explicit: bool },
    PlaylistTrack { playlist_id: Seq<char>, track_id: Seq<char> },
    Artist { artist_id: Seq<char>, name: Seq<char> },
    TrackArtist { track_id: Seq<char>, artist_id: Seq<char> },
}

impl View for ImportWrite {
    type V = ImportWriteView;

    open spec fn view(&self) -> ImportWriteView {
        match self {
            ImportWrite::Playlist { user_id, playlist_id, name, description, total_tracks, image_url } =>
                ImportWriteView::Playlist {
                user_id: user_id@,
                playlist_id: playlist_id@,
                name: name@,
                description: description@,
                total_tracks: *total_tracks,
                image_url: image_url@,
            },
            ImportWrite::Track { track_id, name, uri, duration_ms, explicit } => ImportWriteView::Track {
                track_id: track_id@,
                name: name@,
                uri: uri@,
                duration_ms: *duration_ms,
                explicit: *explicit,
            },
            ImportWrite::PlaylistTrack { playlist_id, track_id } => ImportWriteView::PlaylistTrack {
                playlist_id: playlist_id@,
                track_id: track_id@,
            },
            ImportWrite::Artist { artist_id, name } => ImportWriteView::Artist { artist_id: artist_id@, name: name@ },
            ImportWrite::TrackArtist { track_id, artist_id } => ImportWriteView::TrackArtist {
                track_id: track_id@,
                artist_id: artist_id@,
            },
        }
    }
}

pub open spec fn import_views(w: Seq<ImportWrite>) -> Seq<ImportWriteView> {
    w.map_values(|x: ImportWrite| x@)
}

/// The artist writes for one track: for each artist with an id, the artist and the link.
pub open spec fn artist_writes(track_id: Seq<char>, artists: Seq<SpotifyArtistSimple>) -> Seq<ImportWriteView>
    decreases artists.len(),
{
    if artists.len() == 0 {
        Seq::empty()
    } else {
        let r = artist_writes(track_id, artists.drop_last());
        let a = artists.last();
        match a.id {
            Some(aid) => r.push(ImportWriteView::Artist { artist_id: aid@, name: a.name@ }).push(
                ImportWriteView::TrackArtist { track_id, artist_id: aid@ },
            ),
            None => r,
        }
    }
}

/// The number of artists with an id.
pub open spec fn artists_with_id(artists: Seq<SpotifyArtistSimple>) -> nat
    decreases artists.len(),
{
    if artists.len() == 0 {
        0
    } else {
        artists_with_id(artists.drop_last()) + if artists.last().id is Some { 1nat } else { 0nat }
    }
}

/// The writes for the tracks: each track, its place in the playlist, then its artists.
pub open spec fn track_writes(playlist_id: Seq<char>, tracks: Seq<SpotifyTrackItem>) -> Seq<ImportWriteView>
    decreases tracks.len(),
{
    if tracks.len() == 0 {
        Seq::empty()
    } else {
        let t = tracks.last();
        track_writes(playlist_id, tracks.drop_last()).push(ImportWriteView::Track {
            track_id: t.id@,
            name: t.name@,
            uri: t.uri@,
            duration_ms: match t.duration_ms { Some(d) => d as i64, None => 0 },
            explicit: match t.explicit { Some(e) => e, None => false },
        }).push(ImportWriteView::PlaylistTrack { playlist_id, track_id: t.id@ }) + artist_writes(t.id@, t.artists@)
    }
}

/// The number of artist links across the tracks.
pub open spec fn artist_links(tracks: Seq<SpotifyTrackItem>) -> nat
    decreases tracks.len(),
{
    if tracks.len() == 0 {
        0
    } else {
        artist_links(tracks.drop_last()) + artists_with_id(tracks.last().artists@)
    }
}

/// An import: the writes to run in order, and what they amount to.
pub struct ImportPlan {
    pub writes: Vec<ImportWrite>,
    pub track_count: usize,
    pub artist_count: usize,
}

/// The first image's URL, or empty.
pub open spec fn first_image_url(p: SpotifyPlaylistItem) -> Seq<char> {
    match p.images {
        Some(imgs) => if imgs@.len() > 0 { imgs@[0].url@ } else { Seq::empty() },
        None => Seq::empty(),
    }
}

fn push_artists(w: &mut Vec<ImportWrite>, track_id: &String, artists: &Vec<SpotifyArtistSimple>) -> (n: usize)
    requires
        old(w)@.len() + 2 * artists_with_id(artists@) <= usize::MAX,
    ensures
        import_views(final(w)@) == import_views(old(w)@) + artist_writes(track_id@, artists@),
        n == artists_with_id(artists@),
        final(w)@.len() == old(w)@.len() + 2 * artists_with_id(artists@),
{
    let ghost s0 = import_views(w@);
    let mut n: usize = 0;
    let mut i: usize = 0;
    while i < artists.len()
        invariant
            i <= artists.len(),
            n == artists_with_id(artists@.take(i as int)),
            w@.len() == old(w)@.len() + 2 * n,
            old(w)@.len() + 2 * artists_with_id(artists@) <= usize::MAX,
            import_views(w@) == s0 + artist_writes(track_id@, artists@.take(i as int)),
        decreases artists.len() - i,
    {
        let a = &artists[i];
        assert(artists@.take(i + 1).drop_last() == artists@.take(i as int));
        let ghost before = import_views(w@);
        proof {
            lemma_artists_prefix(artists@, i as int + 1);
        }
        match &a.id {
            Some(aid) => {
                w.push(ImportWrite::Artist { artist_id: aid.clone(), name: a.name.clone() });
                w.push(ImportWrite::TrackArtist { track_id: track_id.clone(), artist_id: aid.clone() });
                assert(import_views(w@) =~= before.push(ImportWriteView::Artist { artist_id: aid@, name: a.name@ }).push(
                    ImportWriteView::TrackArtist { track_id: track_id@, artist_id: aid@ },
                ));
                n = n + 1;
            },
            None => {},
        }
        i = i + 1;
    }
    assert(artists@.take(artists.len() as int) == artists@);
    n
}

/// The writes that import `playlist` with its `tracks` for the user `user_id`: the playlist
/// (description empty when absent, the first image's URL or empty, and the number of tracks),
/// then each track with its place in the playlist and its artists that have an id.
pub fn import_plan(user_id: &String, playlist: &SpotifyPlaylistItem, tracks: &Vec<SpotifyTrackItem>) -> (plan: ImportPlan)
    requires
        import_views_len_bound(tracks@) < usize::MAX,
        tracks@.len() <= i64::MAX,
    ensures
        ({
            &&& import_views(plan.writes@) == seq![ImportWriteView::Playlist {
                user_id: user_id@,
                playlist_id: playlist.id@,
                name: playlist.name@,
                description: match playlist.description { Some(d) => d@, None => Seq::empty() },
                total_tracks: tracks@.len() as i64,
                image_url: first_image_url(*playlist),
            }] + track_writes(playlist.id@, tracks@)
            &&& plan.track_count == tracks@.len()
            &&& plan.artist_count == artist_links(tracks@)
        }),
{
    let mut w: Vec<ImportWrite> = Vec::new();
    let description = match &playlist.description {
        Some(d) => d.clone(),
        None => String::new(),
    };
    let image_url = match &playlist.images {
        Some(imgs) => if imgs.len() > 0 { imgs[0].url.clone() } else { String::new() },
        None => String::new(),
    };
    w.push(ImportWrite::Playlist {
        user_id: user_id.clone(),
        playlist_id: playlist.id.clone(),
        name: playlist.name.clone(),
        description,
        total_tracks: tracks.len() as i64,
        image_url,
    });
    let ghost s0 = import_views(w@);
    let mut artist_count: usize = 0;
    let mut i: usize = 0;
    while i < tracks.len()
        invariant
            i <= tracks.len(),
            import_views(w@) == s0 + track_writes(playlist.id@, tracks@.take(i as int)),
            artist_count == artist_links(tracks@.take(i as int)),
            artist_links(tracks@.take(i as int)) <= import_views_len_bound(tracks@.take(i as int)),
            w@.len() == 1 + import_views_len_bound(tracks@.take(i as int)),
            import_views_len_bound(tracks@) < usize::MAX,
        decreases tracks.len() - i,
    {
        let t = &tracks[i];
        assert(tracks@.take(i + 1).drop_last() == tracks@.take(i as int));
        proof {
            lemma_bound_grows(tracks@, i as int + 1);
            lemma_artists_with_id_bound(t.artists@);
        }
        let ghost before = import_views(w@);
        w.push(ImportWrite::Track {
            track_id: t.id.clone(),
            name: t.name.clone(),
            uri: t.uri.clone(),
            duration_ms: match t.duration_ms { Some(d) => d as i64, None => 0 },
            explicit: match t.explicit { Some(e) => e, None => false },
        });
        w.push(ImportWrite::PlaylistTrack { playlist_id: playlist.id.clone(), track_id: t.id.clone() });
        let ghost mid = import_views(w@);
        assert(mid =~= before.push(w@[w@.len() - 2]@).push(w@.last()@));
        let n = push_artists(&mut w, &t.id, &t.artists);
        artist_count = artist_count + n;
        i = i + 1;
    }
    assert(tracks@.take(tracks.len() as int) == tracks@);
    ImportPlan { writes: w, track_count: tracks.len(), artist_count }
}

/// How many writes the tracks need beyond the playlist's own.
pub open spec fn import_views_len_bound(tracks: Seq<SpotifyTrackItem>) -> nat
    decreases tracks.len(),
{
    if tracks.len() == 0 {
        0
    } else {
        import_views_len_bound(tracks.drop_last()) + 2 + 2 * artists_with_id(tracks.last().artists@)
    }
}

proof fn lemma_artists_prefix(a: Seq<SpotifyArtistSimple>, k: int)
    requires
        0 <= k <= a.len(),
    ensures
        artists_with_id(a.take(k)) <= artists_with_id(a),
    decreases a.len() - k,
{
    if k < a.len() {
        assert(a.take(k + 1).drop_last() == a.take(k));
        lemma_artists_prefix(a, k + 1);
    } else {
        assert(a.take(k) == a);
    }
}

proof fn lemma_artists_with_id_bound(a: Seq<SpotifyArtistSimple>)
    ensures
        artists_with_id(a) <= a.len(),
    decreases a.len(),
{
    if a.len() > 0 {
        lemma_artists_with_id_bound(a.drop_last());
    }
}

proof fn lemma_bound_grows(tracks: Seq<SpotifyTrackItem>, k: int)
    requires
        0 <= k <= tracks.len(),
    ensures
        import_views_len_bound(tracks.take(k)) <= import_views_len_bound(tracks),
    decreases tracks.len() - k,
{
    if k < tracks.len() {
        assert(tracks.take(k + 1).drop_last() == tracks.take(k));
        lemma_bound_grows(tracks, k + 1);
    } else {
        assert(tracks.take(k) == tracks);
    }
}

/// The report of a finished import.
pub fn import_message(name: &str, track_count: usize, artist_count: usize) -> (m: String)
    ensures
        m@ == "\u{2705} Successfully imported playlist '"@ + name@ + "'\n\u{1f4ca} "@ + decimal(track_count as nat)
            + " tracks, "@ + decimal(artist_count as nat) + " artist relationships\n\u{1f552} Import completed"@,
{
    let mut m = String::from_str("\u{2705} Successfully imported playlist '");
    append(&mut m, name);
    append(&mut m, "'\n\u{1f4ca} ");
    push_decimal(&mut m, track_count as u64);
    append(&mut m, " tracks, ");
    push_decimal(&mut m, artist_count as u64);
    append(&mut m, " artist relationships\n\u{1f552} Import completed");
    m
}

} // verus!
