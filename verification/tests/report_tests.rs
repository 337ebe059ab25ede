use better_spotify::models::{
    CulturalFeature, GenreFeature, LLMSongFeatures, MetadataConfidence, SpotifyArtistSimple, SpotifyTrackItem, UserTag,
};
use better_spotify::report::{
    analysis_failed_message, analysis_report, count_enriched, empty_playlist_message, enrichment_report,
    nothing_to_enrich_message, push_song_block, ConfidenceTexts,
};

fn track(name: &str, artist: &str) -> SpotifyTrackItem {
    SpotifyTrackItem {
        id: name.to_string(),
        uri: String::new(),
        name: name.to_string(),
        artists: vec![SpotifyArtistSimple { id: None, name: artist.to_string() }],
        album: None,
        duration_ms: None,
        explicit: None,
        audio_features: None,
    }
}

fn features() -> LLMSongFeatures {
    LLMSongFeatures {
        song_id: "s".to_string(),
        metadata_confidence: MetadataConfidence { level: "High".to_string(), explanation: "well known".to_string() },
        genres: vec![
            GenreFeature { name: "Rock".to_string(), confidence_bits: 0.9f64.to_bits(), is_primary: true },
            GenreFeature { name: "Blues".to_string(), confidence_bits: 0.4f64.to_bits(), is_primary: false },
        ],
        cultural_origins: vec![CulturalFeature { name: "UK".to_string(), confidence_bits: 0.8f64.to_bits() }],
        primary_language: Some("English".to_string()),
        instruments: vec!["Guitar".to_string(), "Drums".to_string()],
        energy_level: Some("High".to_string()),
        valence: Some("Positive".to_string()),
        production_style: Some("Raw".to_string()),
        vocal_presence: None,
        user_facing_tags: vec![UserTag { tag: "loud".to_string(), confidence_bits: 0.6f64.to_bits() }],
        rhythmic_feel: None,
        density: "Dense".to_string(),
    }
}

fn texts() -> ConfidenceTexts {
    ConfidenceTexts {
        genres: vec!["0.9".to_string(), "0.4".to_string()],
        cultures: vec!["0.8".to_string()],
        tags: vec!["0.6".to_string()],
    }
}

const PLAIN_BLOCK: &str = "1. Song - Band\n   \u{1f4c8} Confidence: High (well known)\n   \u{1f3bc} Genres: Rock* (0.9), Blues (0.4)\n   \u{1f30d} Cultural Origins: UK (0.8)\n   \u{1f5e3}\u{fe0f}  Language: English\n   \u{26a1} Energy: High, Valence: Positive\n   \u{1f3b8} Instruments: Guitar, Drums\n\n";

#[test]
fn a_song_block() {
    let mut s = String::from(">");
    push_song_block(&mut s, 0, &track("Song", "Band"), &features(), &texts(), false);
    assert_eq!(s, format!(">{}", PLAIN_BLOCK));
    let mut d = String::new();
    push_song_block(&mut d, 1, &track("Song", "Band"), &features(), &texts(), true);
    assert!(d.starts_with("2. Song - Band\n"));
    assert!(d.ends_with(
        "   \u{1f3b8} Instruments: Guitar, Drums\n   \u{1f39b}\u{fe0f}  Production: Raw\n   \u{1f3f7}\u{fe0f}  Tags: loud (0.6)\n\n"
    ));
}

#[test]
fn the_enrichment_report() {
    let r = enrichment_report("Mix", &vec![true], &vec![track("Song", "Band")], &vec![features()], &vec![texts()]);
    assert_eq!(
        r,
        format!(
            "\u{1f3b5} Music Library Enrichment for 'Mix'\n\u{1f916} OpenRouter API + Neo4j Graph Database\n\u{1f4ca} Successfully enriched 1/1 songs\n\n{}\u{2705} Enrichment complete! Songs now have semantic graph relationships.",
            PLAIN_BLOCK
        )
    );
}

#[test]
fn the_analysis_report() {
    let r = analysis_report("Mix", &vec![track("Song", "Band"), track("Other", "X")], &vec![features()], &vec![texts()]);
    assert!(r.starts_with("\u{1f3b5} LLM Audio Features Analysis for 'Mix'\n\u{1f916} OpenRouter API\n\u{1f4ca} Analyzed 1 tracks and stored in Neo4j graph\n\n1. Song - Band\n"));
    assert!(!r.contains("Other"));
    assert!(r.ends_with("\u{1f4be} All features stored as Neo4j graph relationships for fast querying!\n"));
    assert!(r.contains("   \u{2022} Find songs by genre: /api/find_songs_by_genre\n"));
}

#[test]
fn short_messages() {
    assert_eq!(
        nothing_to_enrich_message("Mix"),
        "\u{1f3b5} Playlist 'Mix' has no songs that need enrichment.\nAll songs may already be enriched!"
    );
    assert!(analysis_failed_message("boom").starts_with("\u{274c} LLM feature extraction failed: boom\n\nThis could be due to:\n"));
    assert_eq!(empty_playlist_message("Mix"), "Playlist 'Mix' is empty");
}

#[test]
fn enriched_songs_are_counted() {
    assert_eq!(count_enriched(&vec![true, false, true]), 2);
    assert_eq!(count_enriched(&vec![]), 0);
    let r = enrichment_report("Mix", &vec![false], &vec![track("Song", "Band")], &vec![features()], &vec![texts()]);
    assert!(r.contains("Successfully enriched 0/1 songs"));
}
