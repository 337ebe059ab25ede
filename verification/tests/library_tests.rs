use better_spotify::library::{
    first_tracks, imported_from_first_row, llm_song_entries, node_type_queries, playlist_url, playlists_page_url,
    single_audio_features, track_from_song_row, tracks_page_url, valid_feature_ids, AudioFeaturesAction,
    AudioFeaturesJob, FEATURE_IDS_LIMIT,
};
use better_spotify::llm::create_fallback_features;
use better_spotify::models::{SpotifyArtistSimple, SpotifyTrackItem};

fn track(id: &str, artists: &[&str]) -> SpotifyTrackItem {
    SpotifyTrackItem {
        id: id.to_string(),
        uri: format!("spotify:track:{}", id),
        name: format!("Song {}", id),
        artists: artists.iter().map(|a| SpotifyArtistSimple { id: None, name: a.to_string() }).collect(),
        album: None,
        duration_ms: None,
        explicit: None,
        audio_features: None,
    }
}

#[test]
fn page_urls() {
    assert_eq!(
        playlists_page_url(50, 100).unwrap(),
        "https://api.spotify.com/v1/me/playlists?limit=50&offset=100"
    );
    assert_eq!(
        tracks_page_url("abc", 50, 0).unwrap(),
        "https://api.spotify.com/v1/playlists/abc/tracks?offset=0&limit=50&fields=items%28track%28id%2Cname%2Curi%2Cartists%28id%2Cname%29%29%29%2Climit%2Coffset%2Ctotal%2Cnext"
    );
    assert_eq!(playlist_url("abc"), "https://api.spotify.com/v1/playlists/abc");
}

#[test]
fn feature_ids_are_filtered_and_capped() {
    let ids: Vec<String> = vec!["", "a", "b", "", "c"].into_iter().map(String::from).collect();
    assert_eq!(valid_feature_ids(ids), vec!["a", "b", "c"]);
    assert_eq!(FEATURE_IDS_LIMIT, 100);
    let many: Vec<String> = (0..150).map(|i| i.to_string()).collect();
    assert_eq!(valid_feature_ids(many.clone()), many[..100].to_vec());
    assert_eq!(single_audio_features(vec![]), None);
}

#[test]
fn features_are_looked_up_in_groups_of_fifty() {
    let ids: Vec<String> = (0..60).map(|i| format!("t{}", i)).collect();
    let (_, a) = AudioFeaturesJob::new(ids);
    match a {
        AudioFeaturesAction::FetchTracks { urls } => {
            assert_eq!(urls.len(), 2);
            assert!(urls[0].starts_with("https://api.spotify.com/v1/tracks?ids=t0%2Ct1%2C"));
            assert!(urls[0].ends_with("%2Ct49"));
            assert_eq!(urls[1], "https://api.spotify.com/v1/tracks?ids=t50%2Ct51%2Ct52%2Ct53%2Ct54%2Ct55%2Ct56%2Ct57%2Ct58%2Ct59");
        },
        _ => panic!("expected a lookup"),
    }
    let (job, a) = AudioFeaturesJob::new(vec![String::new()]);
    assert!(job.ids.is_empty());
    match a {
        AudioFeaturesAction::Done { features, for_ids } => assert!(features.is_empty() && for_ids.is_empty()),
        _ => panic!("expected an empty answer"),
    }
}

#[test]
fn features_answer_each_id_with_its_analysis() {
    let (job, _) = AudioFeaturesJob::new(vec!["x".to_string(), "".to_string(), "y".to_string(), "z".to_string()]);
    let tracks = match job.on_tracks(Ok(vec![Some(track("x", &["A"])), None, Some(track("z", &[]))])) {
        AudioFeaturesAction::Analyse { tracks } => tracks,
        _ => panic!("expected an analysis"),
    };
    assert_eq!(tracks.iter().map(|t| t.id.as_str()).collect::<Vec<_>>(), vec!["x", "z"]);
    let fs = vec![create_fallback_features(&tracks[1]), create_fallback_features(&tracks[0])];
    match job.on_features(Ok(fs)) {
        AudioFeaturesAction::Done { features, for_ids } => {
            assert_eq!(for_ids, vec![Some(1), None, Some(0)]);
            assert_eq!(features[1].song_id, "x");
        },
        _ => panic!("expected the answer"),
    }
    match job.on_tracks(Ok(vec![None, None])) {
        AudioFeaturesAction::Done { features, for_ids } => {
            assert!(features.is_empty());
            assert_eq!(for_ids, vec![None, None, None]);
        },
        _ => panic!("expected an empty answer"),
    }
    match job.on_features(Err("model down".to_string())) {
        AudioFeaturesAction::Failed(m) => assert_eq!(m, "model down"),
        _ => panic!("expected a failure"),
    }
}

#[test]
fn a_playlist_is_imported_when_a_row_came_back() {
    assert!(imported_from_first_row(Ok(Some("p".to_string()))));
    assert!(!imported_from_first_row(Ok(None)));
    assert!(!imported_from_first_row(Err("down".to_string())));
}

#[test]
fn node_type_queries_cover_nine_types() {
    let q = node_type_queries();
    let names: Vec<&str> = q.iter().map(|p| p.0).collect();
    assert_eq!(
        names,
        vec!["Genre", "Language", "EnergyLevel", "Valence", "Culture", "Instrument", "ProductionStyle", "VocalStyle", "UserTag"]
    );
    assert_eq!(
        q[0].1,
        "MATCH (n:Genre)<-[r:HAS_GENRE]-(s:Song) RETURN n.name as value, count(s) as song_count, avg(r.confidence) as confidence_avg"
    );
    assert_eq!(
        q[2].1,
        "MATCH (n:EnergyLevel)<-[:HAS_ENERGY_LEVEL]-(s:Song) RETURN n.level as value, count(s) as song_count, null as confidence_avg"
    );
}

#[test]
fn songs_for_the_model() {
    let ts = vec![track("1", &["Ann", "Bob"]), track("2", &[])];
    let e = llm_song_entries(&ts);
    assert_eq!(
        e,
        vec![
            ("1".to_string(), "Ann".to_string(), "Song 1".to_string()),
            ("2".to_string(), "Unknown Artist".to_string(), "Song 2".to_string()),
        ]
    );
    let t = track_from_song_row(
        "9".to_string(),
        "Title".to_string(),
        "spotify:track:9".to_string(),
        vec!["Cy".to_string(), "Di".to_string()],
    );
    assert_eq!(t.id, "9");
    assert_eq!(t.name, "Title");
    assert_eq!(t.uri, "spotify:track:9");
    assert_eq!(t.artists, vec![SpotifyArtistSimple { id: None, name: "Cy".to_string() }, SpotifyArtistSimple { id: None, name: "Di".to_string() }]);
    assert!(t.album.is_none() && t.duration_ms.is_none() && t.explicit.is_none() && t.audio_features.is_none());
    let first: Vec<String> = first_tracks(vec![track("a", &[]), track("b", &[]), track("c", &[]), track("d", &[])], 3)
        .into_iter()
        .map(|t| t.id)
        .collect();
    assert_eq!(first, vec!["a", "b", "c"]);
    assert_eq!(first_tracks(vec![track("a", &[])], 3).len(), 1);
}

#[test]
fn a_playlist_id_with_a_hash_gives_no_page_url() {
    assert_eq!(tracks_page_url("ab#c", 50, 0), None);
    assert!(tracks_page_url("abc", 50, 0).is_some());
}
