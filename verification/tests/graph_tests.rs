use better_spotify::graph::{feature_writes, import_message, import_plan, FeatureWrite, ImportWrite};
use better_spotify::models::{
    CulturalFeature, GenreFeature, LLMSongFeatures, MetadataConfidence, SpotifyArtistSimple, SpotifyImageObject,
    SpotifyPlaylistItem, SpotifyTrackItem, UserTag,
};

fn features() -> LLMSongFeatures {
    LLMSongFeatures {
        song_id: "s".to_string(),
        metadata_confidence: MetadataConfidence { level: "High".to_string(), explanation: "known".to_string() },
        genres: vec![GenreFeature { name: "Rock".to_string(), confidence_bits: 0.9f64.to_bits(), is_primary: true }],
        cultural_origins: vec![CulturalFeature { name: "UK".to_string(), confidence_bits: 0.5f64.to_bits() }],
        primary_language: Some("English".to_string()),
        instruments: vec!["Guitar".to_string(), "Drums".to_string()],
        energy_level: Some("High".to_string()),
        valence: None,
        production_style: Some("Polished".to_string()),
        vocal_presence: None,
        user_facing_tags: vec![UserTag { tag: "loud".to_string(), confidence_bits: 0.8f64.to_bits() }],
        rhythmic_feel: Some("Driving".to_string()),
        density: "Dense".to_string(),
    }
}

fn artist(id: Option<&str>, name: &str) -> SpotifyArtistSimple {
    SpotifyArtistSimple { id: id.map(|s| s.to_string()), name: name.to_string() }
}

fn track(id: &str, artists: Vec<SpotifyArtistSimple>, duration: Option<u32>, explicit: Option<bool>) -> SpotifyTrackItem {
    SpotifyTrackItem {
        id: id.to_string(),
        uri: format!("spotify:track:{}", id),
        name: format!("Song {}", id),
        artists,
        album: None,
        duration_ms: duration,
        explicit,
        audio_features: None,
    }
}

#[test]
fn feature_writes_come_in_order() {
    let id = "song1".to_string();
    let w = feature_writes(&id, &features());
    let s = |x: &str| x.to_string();
    assert_eq!(
        w,
        vec![
            FeatureWrite::Song {
                song_id: s("song1"),
                rhythmic_feel: Some(s("Driving")),
                density: s("Dense"),
                confidence_level: s("High"),
                confidence_explanation: s("known"),
            },
            FeatureWrite::Genre { song_id: s("song1"), name: s("Rock"), confidence_bits: 0.9f64.to_bits(), is_primary: true },
            FeatureWrite::Culture { song_id: s("song1"), name: s("UK"), confidence_bits: 0.5f64.to_bits() },
            FeatureWrite::Language { song_id: s("song1"), language: s("English") },
            FeatureWrite::Instrument { song_id: s("song1"), name: s("Guitar") },
            FeatureWrite::Instrument { song_id: s("song1"), name: s("Drums") },
            FeatureWrite::EnergyLevel { song_id: s("song1"), level: s("High") },
            FeatureWrite::ProductionStyle { song_id: s("song1"), name: s("Polished") },
            FeatureWrite::UserTag { song_id: s("song1"), name: s("loud"), confidence_bits: 0.8f64.to_bits() },
        ]
    );
}

#[test]
fn import_plan_lists_playlist_tracks_and_artists() {
    let playlist = SpotifyPlaylistItem {
        id: "pl".to_string(),
        name: "Mix".to_string(),
        images: Some(vec![SpotifyImageObject { url: "https://img/a".to_string(), height: None, width: None }]),
        description: None,
        uri: "spotify:playlist:pl".to_string(),
    };
    let tracks = vec![
        track("t1", vec![artist(Some("a1"), "Ann"), artist(None, "Nobody")], Some(1000), Some(true)),
        track("t2", vec![artist(Some("a1"), "Ann"), artist(Some("a2"), "Bob")], None, None),
    ];
    let plan = import_plan(&"me".to_string(), &playlist, &tracks);
    assert_eq!(plan.track_count, 2);
    assert_eq!(plan.artist_count, 3);
    let s = |x: &str| x.to_string();
    assert_eq!(
        plan.writes,
        vec![
            ImportWrite::Playlist {
                user_id: s("me"),
                playlist_id: s("pl"),
                name: s("Mix"),
                description: s(""),
                total_tracks: 2,
                image_url: s("https://img/a"),
            },
            ImportWrite::Track { track_id: s("t1"), name: s("Song t1"), uri: s("spotify:track:t1"), duration_ms: 1000, explicit: true },
            ImportWrite::PlaylistTrack { playlist_id: s("pl"), track_id: s("t1") },
            ImportWrite::Artist { artist_id: s("a1"), name: s("Ann") },
            ImportWrite::TrackArtist { track_id: s("t1"), artist_id: s("a1") },
            ImportWrite::Track { track_id: s("t2"), name: s("Song t2"), uri: s("spotify:track:t2"), duration_ms: 0, explicit: false },
            ImportWrite::PlaylistTrack { playlist_id: s("pl"), track_id: s("t2") },
            ImportWrite::Artist { artist_id: s("a1"), name: s("Ann") },
            ImportWrite::TrackArtist { track_id: s("t2"), artist_id: s("a1") },
            ImportWrite::Artist { artist_id: s("a2"), name: s("Bob") },
            ImportWrite::TrackArtist { track_id: s("t2"), artist_id: s("a2") },
        ]
    );
}

#[test]
fn an_empty_playlist_imports_only_itself() {
    let playlist = SpotifyPlaylistItem {
        id: "pl".to_string(),
        name: "Empty".to_string(),
        images: Some(vec![]),
        description: Some("desc".to_string()),
        uri: "spotify:playlist:pl".to_string(),
    };
    let plan = import_plan(&"me".to_string(), &playlist, &vec![]);
    assert_eq!(plan.writes.len(), 1);
    match &plan.writes[0] {
        ImportWrite::Playlist { description, image_url, total_tracks, .. } => {
            assert_eq!(description, "desc");
            assert_eq!(image_url, "");
            assert_eq!(*total_tracks, 0);
        },
        _ => panic!("expected the playlist"),
    }
    assert_eq!((plan.track_count, plan.artist_count), (0, 0));
}

#[test]
fn import_report() {
    assert_eq!(
        import_message("Mix", 2, 3),
        "\u{2705} Successfully imported playlist 'Mix'\n\u{1f4ca} 2 tracks, 3 artist relationships\n\u{1f552} Import completed"
    );
}
