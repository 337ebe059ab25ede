use better_spotify::llm::{
    create_fallback_features, extract_json_content, features_for_tracks, features_from_analysis, RawSongAnalysis,
    RawTag,
};
use better_spotify::models::SpotifyTrackItem;

fn track(id: &str) -> SpotifyTrackItem {
    SpotifyTrackItem {
        id: id.to_string(),
        uri: format!("spotify:track:{}", id),
        name: id.to_string(),
        artists: vec![],
        album: None,
        duration_ms: None,
        explicit: None,
        audio_features: None,
    }
}

fn tag(name: Option<&str>, conf: Option<f64>) -> RawTag {
    RawTag { tag: name.map(|s| s.to_string()), confidence_bits: conf.map(|c| c.to_bits()) }
}

fn empty_analysis() -> RawSongAnalysis {
    RawSongAnalysis {
        confidence_level: None,
        confidence_explanation: None,
        primary_genre: None,
        genre_tags: None,
        cultural_origin_tags: None,
        primary_language: None,
        instruments: None,
        energy_level: None,
        valence: None,
        production_style: None,
        vocal_presence: None,
        user_facing_tags: None,
        rhythmic_feel: None,
        density: None,
    }
}

#[test]
fn json_is_cut_out_of_code_fences() {
    assert_eq!(extract_json_content("  [1, 2]  "), "[1, 2]");
    assert_eq!(extract_json_content("```json\n[1]\n```"), "[1]");
    assert_eq!(extract_json_content("```\n{\"a\": 1}\n```  "), "{\"a\": 1}");
    assert_eq!(extract_json_content("```json\n[1]"), "```json\n[1]");
    assert_eq!(extract_json_content(""), "");
    assert_eq!(extract_json_content("```json```"), "");
}

#[test]
fn features_default_missing_fields() {
    let f = features_from_analysis(empty_analysis(), &track("s1"));
    assert_eq!(f.song_id, "s1");
    assert_eq!(f.metadata_confidence.level, "Medium");
    assert_eq!(f.metadata_confidence.explanation, "No explanation provided");
    assert_eq!(f.density, "Medium");
    assert!(f.genres.is_empty() && f.cultural_origins.is_empty() && f.user_facing_tags.is_empty());
    assert!(f.instruments.is_empty());
    assert_eq!(f.primary_language, None);
}

#[test]
fn features_keep_complete_tags_and_mark_the_primary_genre() {
    let mut raw = empty_analysis();
    raw.confidence_level = Some("High".to_string());
    raw.primary_genre = Some("Rock".to_string());
    raw.genre_tags = Some(vec![tag(Some("Pop"), Some(0.6)), tag(Some("Rock"), Some(0.9)), tag(None, Some(0.1))]);
    raw.cultural_origin_tags = Some(vec![tag(Some("UK"), None), tag(Some("US"), Some(0.8))]);
    raw.user_facing_tags = Some(vec![tag(Some("driving"), Some(0.7))]);
    raw.instruments = Some(vec![Some("Guitar".to_string()), None, Some("Drums".to_string())]);
    raw.energy_level = Some("High".to_string());
    raw.density = Some("Dense".to_string());
    let f = features_from_analysis(raw, &track("s2"));
    assert_eq!(f.metadata_confidence.level, "High");
    let genres: Vec<(String, bool)> = f.genres.iter().map(|g| (g.name.clone(), g.is_primary)).collect();
    assert_eq!(genres, vec![("Pop".to_string(), false), ("Rock".to_string(), true)]);
    assert_eq!(f.genres[1].confidence_bits, 0.9f64.to_bits());
    let cultures: Vec<&str> = f.cultural_origins.iter().map(|c| c.name.as_str()).collect();
    assert_eq!(cultures, vec!["US"]);
    assert_eq!(f.user_facing_tags[0].tag, "driving");
    assert_eq!(f.instruments, vec!["Guitar", "Drums"]);
    assert_eq!(f.energy_level, Some("High".to_string()));
    assert_eq!(f.density, "Dense");
}

#[test]
fn fallback_features() {
    let f = create_fallback_features(&track("s3"));
    assert_eq!(f.song_id, "s3");
    assert_eq!(f.metadata_confidence.level, "Very Low");
    assert_eq!(f.metadata_confidence.explanation, "LLM parsing failed, using fallback data");
    assert_eq!(f.genres.len(), 1);
    assert_eq!(f.genres[0].name, "Unknown");
    assert_eq!(f.genres[0].confidence_bits, 0.0f64.to_bits());
    assert!(f.genres[0].is_primary);
    assert_eq!(f.density, "Medium");
}

#[test]
fn analyses_pair_with_tracks_in_order() {
    let tracks = vec![track("a"), track("b")];
    let r = features_for_tracks(vec![empty_analysis(), empty_analysis(), empty_analysis()], &tracks);
    let ids: Vec<&str> = r.iter().map(|f| f.song_id.as_str()).collect();
    assert_eq!(ids, vec!["a", "b"]);
    assert_eq!(features_for_tracks(vec![empty_analysis()], &tracks).len(), 1);
}

#[test]
fn trimming_follows_unicode_white_space() {
    let s = "\u{3000}\u{a0}\t```json\n[1]\n```\u{2029}\u{85}";
    assert_eq!(extract_json_content(s), "[1]");
    assert_eq!(extract_json_content(s), s.trim().strip_prefix("```json").unwrap().strip_suffix("```").unwrap().trim());
}
