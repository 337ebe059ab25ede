use better_spotify::models::{
    GenreFeature, ImportedPlaylist, LLMSongFeatures, MetadataConfidence, SpotifyArtistSimple, SpotifyTrackItem,
};

fn features(genres: Vec<GenreFeature>, level: &str) -> LLMSongFeatures {
    LLMSongFeatures {
        song_id: "song".to_string(),
        metadata_confidence: MetadataConfidence { level: level.to_string(), explanation: "why".to_string() },
        genres,
        cultural_origins: vec![],
        primary_language: Some("English".to_string()),
        instruments: vec![],
        energy_level: Some("High".to_string()),
        valence: None,
        production_style: None,
        vocal_presence: None,
        user_facing_tags: vec![],
        rhythmic_feel: None,
        density: "Medium".to_string(),
    }
}

fn genre(name: &str, primary: bool) -> GenreFeature {
    GenreFeature { name: name.to_string(), confidence_bits: 0.5f64.to_bits(), is_primary: primary }
}

fn track(name: &str, artists: &[&str]) -> SpotifyTrackItem {
    SpotifyTrackItem {
        id: "t1".to_string(),
        uri: "spotify:track:t1".to_string(),
        name: name.to_string(),
        artists: artists.iter().map(|a| SpotifyArtistSimple { id: None, name: a.to_string() }).collect(),
        album: None,
        duration_ms: None,
        explicit: None,
        audio_features: None,
    }
}

fn imported(song_count: i64, enriched_count: i64, has: bool, full: bool) -> ImportedPlaylist {
    ImportedPlaylist {
        id: "p".to_string(),
        name: "P".to_string(),
        description: String::new(),
        song_count,
        enriched_count,
        has_enrichment: has,
        fully_enriched: full,
    }
}

#[test]
fn primary_genre_is_the_first_marked_primary() {
    let f = features(vec![genre("Rock", false), genre("Jazz", true), genre("Pop", true)], "High");
    assert_eq!(f.primary_genre(), Some("Jazz"));
    let none = features(vec![genre("Rock", false)], "High");
    assert_eq!(none.primary_genre(), None);
}

#[test]
fn all_genres_lists_names_in_order() {
    let f = features(vec![genre("Rock", false), genre("Jazz", true)], "High");
    assert_eq!(f.all_genres(), vec!["Rock", "Jazz"]);
}

#[test]
fn high_confidence_means_very_high_or_high() {
    assert!(features(vec![], "Very High").has_high_confidence());
    assert!(features(vec![], "High").has_high_confidence());
    assert!(!features(vec![], "Medium").has_high_confidence());
    assert!(!features(vec![], "high").has_high_confidence());
}

#[test]
fn summary_names_genre_energy_valence_language_and_confidence() {
    let f = features(vec![genre("Rock", false), genre("Jazz", true)], "High");
    assert_eq!(f.summary(), "Genre: Jazz, Energy: High, Valence: Unknown, Language: English, Confidence: High");
    let g = features(vec![], "Low");
    assert_eq!(g.summary(), "Genre: Unknown, Energy: High, Valence: Unknown, Language: English, Confidence: Low");
}

#[test]
fn track_artist_helpers() {
    let t = track("Song", &["A", "B", "C"]);
    assert_eq!(t.primary_artist(), "A");
    assert_eq!(t.all_artists(), "A, B, C");
    assert_eq!(t.display_name(), "Song - A");
    let lone = track("Solo", &[]);
    assert_eq!(lone.primary_artist(), "Unknown Artist");
    assert_eq!(lone.all_artists(), "");
    assert_eq!(lone.display_name(), "Solo - Unknown Artist");
    assert!(!t.has_audio_features());
    let mut with = t.clone();
    with.audio_features = Some(features(vec![], "High"));
    assert!(with.has_audio_features());
}

#[test]
fn enrichment_status_strings() {
    assert_eq!(imported(0, 0, false, false).enrichment_status(), "Empty");
    assert_eq!(imported(0, 0, true, true).enrichment_status(), "Empty");
    assert_eq!(imported(10, 10, true, true).enrichment_status(), "Fully Enriched");
    assert_eq!(imported(10, 3, true, false).enrichment_status(), "Partial (3/10)");
    assert_eq!(imported(10, 0, false, false).enrichment_status(), "Not Enriched");
    assert_eq!(imported(-5, -1, true, false).enrichment_status(), "Partial (-1/-5)");
}

#[test]
fn can_be_enriched_needs_songs_and_room() {
    assert!(imported(10, 3, true, false).can_be_enriched());
    assert!(!imported(10, 10, true, true).can_be_enriched());
    assert!(!imported(0, 0, false, false).can_be_enriched());
    assert!(!imported(-1, 0, false, false).can_be_enriched());
}
