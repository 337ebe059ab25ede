use better_spotify::generator::{
    build_playlist_query, collect_node_values, generated_description, generated_result, no_songs_message,
    song_uris_from_rows, GenerateAction, GenerateJob, QueryError, QueryParam,
};
use better_spotify::models::{NodeValue, PlaylistFilter, PlaylistGenerationRequest, SpotifyPlaylistItem};

fn filter(t: &str, v: &str, conf: Option<f64>) -> PlaylistFilter {
    PlaylistFilter { node_type: t.to_string(), value: v.to_string(), min_confidence_bits: conf.map(|c| c.to_bits()) }
}

fn request(filters: Vec<PlaylistFilter>, shuffle: bool) -> PlaylistGenerationRequest {
    PlaylistGenerationRequest {
        name: "Gen".to_string(),
        description: None,
        filters,
        max_songs: 25,
        shuffle,
    }
}

fn value(v: &str, n: i64) -> NodeValue {
    NodeValue { value: v.to_string(), song_count: n, confidence_avg_bits: None }
}

#[test]
fn query_for_a_genre_and_a_language() {
    let req = request(vec![filter("Genre", "Rock", Some(0.7)), filter("Language", "English", None)], true);
    let q = build_playlist_query(&"u1".to_string(), &req).unwrap();
    assert_eq!(
        q.cypher,
        "MATCH (u:User {spotify_id: $user_id})-[:OWNS]->(p:Playlist)-[:CONTAINS]->(s:Song)\n\
         MATCH (s)-[r0:HAS_GENRE]->(n0:Genre {name: $filter_0_value})\n\
         MATCH (s)-[:SUNG_IN]->(n1:Language {name: $filter_1_value})\n\
         WHERE r0.confidence >= $filter_0_confidence\n\
         RETURN DISTINCT s.id as song_id, s.title as title, s.uri as uri\n\
         ORDER BY rand()\n\
         LIMIT $max_songs"
    );
    assert_eq!(
        q.params,
        vec![
            ("user_id".to_string(), QueryParam::Text("u1".to_string())),
            ("max_songs".to_string(), QueryParam::Int(25)),
            ("filter_0_value".to_string(), QueryParam::Text("Rock".to_string())),
            ("filter_0_confidence".to_string(), QueryParam::FloatBits(0.7f64.to_bits())),
            ("filter_1_value".to_string(), QueryParam::Text("English".to_string())),
        ]
    );
    assert_eq!(q.descriptions, vec!["Genre: Rock", "Language: English"]);
}

#[test]
fn query_without_thresholds_orders_by_title() {
    let req = request(
        vec![
            filter("EnergyLevel", "High", None),
            filter("Valence", "Happy", Some(0.5)),
            filter("UserTag", "chill", Some(0.4)),
            filter("Culture", "Brazil", None),
        ],
        false,
    );
    let q = build_playlist_query(&"u".to_string(), &req).unwrap();
    assert_eq!(
        q.cypher,
        "MATCH (u:User {spotify_id: $user_id})-[:OWNS]->(p:Playlist)-[:CONTAINS]->(s:Song)\n\
         MATCH (s)-[:HAS_ENERGY_LEVEL]->(n0:EnergyLevel {level: $filter_0_value})\n\
         MATCH (s)-[:HAS_VALENCE]->(n1:Valence {level: $filter_1_value})\n\
         MATCH (s)-[r2:HAS_USER_TAG]->(n2:UserTag {name: $filter_2_value})\n\
         MATCH (s)-[r3:ORIGINATED_FROM]->(n3:Culture {name: $filter_3_value})\n\
         WHERE r2.confidence >= $filter_2_confidence\n\
         RETURN DISTINCT s.id as song_id, s.title as title, s.uri as uri\n\
         ORDER BY s.title\n\
         LIMIT $max_songs"
    );
    assert_eq!(q.params.len(), 2 + 4 + 2);
    assert_eq!(q.descriptions, vec!["Energy: High", "Valence: Happy", "Tag: chill", "Culture: Brazil"]);
}

#[test]
fn other_node_types_and_labels() {
    let req = request(
        vec![
            filter("Instrument", "Piano", None),
            filter("ProductionStyle", "Lo-fi", None),
            filter("VocalStyle", "Choir", None),
        ],
        false,
    );
    let q = build_playlist_query(&"u".to_string(), &req).unwrap();
    assert!(q.cypher.contains("MATCH (s)-[:FEATURES_INSTRUMENT]->(n0:Instrument {name: $filter_0_value})"));
    assert!(q.cypher.contains("MATCH (s)-[:HAS_PRODUCTION_STYLE]->(n1:ProductionStyle {name: $filter_1_value})"));
    assert!(q.cypher.contains("MATCH (s)-[:HAS_VOCAL_STYLE]->(n2:VocalStyle {name: $filter_2_value})"));
    assert!(!q.cypher.contains("WHERE"));
    assert_eq!(q.descriptions, vec!["Instrument: Piano", "Production: Lo-fi", "Vocals: Choir"]);
}

#[test]
fn query_errors() {
    let e = build_playlist_query(&"u".to_string(), &request(vec![], true)).unwrap_err();
    assert_eq!(e, QueryError::NoFilters);
    assert_eq!(e.message(), "At least one filter is required");
    let e = build_playlist_query(
        &"u".to_string(),
        &request(vec![filter("Genre", "Rock", None), filter("Mood", "x", None)], true),
    )
    .unwrap_err();
    assert_eq!(e, QueryError::UnsupportedNodeType("Mood".to_string()));
    assert_eq!(e.message(), "Unsupported node type: Mood");
}

#[test]
fn node_values_sorted_by_song_count_stably() {
    let rows = vec![value("a", 2), value("", 9), value("b", 5), value("c", 2), value("d", 0), value("e", 5)];
    let got: Vec<String> = collect_node_values(rows).into_iter().map(|v| v.value).collect();
    assert_eq!(got, vec!["b", "e", "a", "c"]);
}

#[test]
fn empty_uris_are_dropped() {
    let rows = vec!["spotify:track:1".to_string(), String::new(), "spotify:track:2".to_string()];
    assert_eq!(song_uris_from_rows(rows), vec!["spotify:track:1", "spotify:track:2"]);
    assert_eq!(no_songs_message(), "No songs found matching the specified filters");
}

#[test]
fn description_and_result() {
    let ds = vec!["Genre: Rock".to_string(), "Energy: High".to_string()];
    assert_eq!(
        generated_description(None, &ds),
        "Generated by Betterd Spotify with filters: Genre: Rock, Energy: High"
    );
    assert_eq!(generated_description(Some("mine".to_string()), &ds), "mine");
    let r = generated_result("pl".to_string(), "Gen".to_string(), 12, ds.clone());
    assert_eq!(r.spotify_playlist_id, "pl");
    assert_eq!(r.name, "Gen");
    assert_eq!(r.song_count, 12);
    assert_eq!(r.applied_filters, ds);
    assert_eq!(r.external_url, "https://open.spotify.com/playlist/pl");
}

#[test]
fn every_query_is_scoped_to_the_user_with_one_clause_per_filter() {
    for shuffle in [true, false] {
        let fs = vec![filter("Genre", "Rock", Some(0.5)), filter("Instrument", "Piano", None), filter("Culture", "Mali", Some(0.2))];
        let q = build_playlist_query(&"me".to_string(), &request(fs, shuffle)).unwrap();
        assert!(q.cypher.starts_with(
            "MATCH (u:User {spotify_id: $user_id})-[:OWNS]->(p:Playlist)-[:CONTAINS]->(s:Song)\n"
        ));
        assert_eq!(q.cypher.matches("\nMATCH (s)").count(), 3);
        assert_eq!(q.descriptions.len(), 3);
        assert_eq!(q.cypher.matches(".confidence >= ").count(), 2);
    }
}

#[test]
fn a_generation_runs_to_the_end() {
    let req = request(vec![filter("Genre", "Rock", Some(0.6))], false);
    let (mut job, a) = GenerateJob::new(&"me".to_string(), req);
    match a {
        GenerateAction::RunQuery { cypher, params } => {
            assert!(cypher.contains("MATCH (s)-[r0:HAS_GENRE]->(n0:Genre {name: $filter_0_value})"));
            assert_eq!(params.len(), 4);
        },
        _ => panic!("expected the query"),
    }
    let mut rows: Vec<String> = (0..150).map(|i| format!("spotify:track:{}", i)).collect();
    rows.insert(3, String::new());
    assert!(matches!(job.on_rows(Ok(rows)), GenerateAction::GetUserId));
    match job.on_user_id(Ok("bob".to_string())) {
        GenerateAction::CreatePlaylist { url, name, description } => {
            assert_eq!(url, "https://api.spotify.com/v1/users/bob/playlists");
            assert_eq!(name, "Gen");
            assert_eq!(description, "Generated by Betterd Spotify with filters: Genre: Rock");
        },
        _ => panic!("expected a create"),
    }
    let created = SpotifyPlaylistItem {
        id: "new".to_string(),
        name: "Gen".to_string(),
        images: None,
        description: None,
        uri: String::new(),
    };
    let mut a = job.on_created(Ok(created));
    let mut sizes = Vec::new();
    loop {
        match a {
            GenerateAction::AddTracks { url, uris, pause_after } => {
                assert_eq!(url, "https://api.spotify.com/v1/playlists/new/tracks");
                sizes.push((uris.len(), pause_after));
                a = job.on_tracks_added(Ok(()));
            },
            GenerateAction::Finished(r) => {
                assert_eq!(r.song_count, 150);
                assert_eq!(r.applied_filters, vec!["Genre: Rock"]);
                assert_eq!(r.external_url, "https://open.spotify.com/playlist/new");
                break;
            },
            _ => panic!("unexpected action"),
        }
    }
    assert_eq!(sizes, vec![(100, true), (50, false)]);
}

#[test]
fn generation_failures_are_worded() {
    let (_, a) = GenerateJob::new(&"me".to_string(), request(vec![], true));
    assert!(matches!(a, GenerateAction::Failed(m) if m == "At least one filter is required"));
    let (mut job, _) = GenerateJob::new(&"me".to_string(), request(vec![filter("Mood", "x", None)], true));
    let (mut ok_job, _) = GenerateJob::new(&"me".to_string(), request(vec![filter("Genre", "x", None)], true));
    assert!(matches!(ok_job.on_rows(Ok(vec![String::new()])), GenerateAction::Failed(m) if m == "No songs found matching the specified filters"));
    assert!(matches!(job.on_rows(Err("down".to_string())), GenerateAction::Failed(m) if m == "Failed to execute playlist query: down"));
}
