use better_spotify::models::{ImportedPlaylist, PlaylistFilter, SpotifyPlaylistItem};
use better_spotify::pages::{
    add_filter, enrich_button_label, generate_button_label, next_spinner_frame, node_type_takes_confidence,
    remove_filter, search_imported_playlists, search_playlists, status_tone, StatusTone,
};

fn playlist(name: &str) -> SpotifyPlaylistItem {
    SpotifyPlaylistItem {
        id: name.to_string(),
        name: name.to_string(),
        images: None,
        description: None,
        uri: String::new(),
    }
}

fn imported(name: &str, has: bool, full: bool, songs: i64) -> ImportedPlaylist {
    ImportedPlaylist {
        id: name.to_string(),
        name: name.to_string(),
        description: String::new(),
        song_count: songs,
        enriched_count: 0,
        has_enrichment: has,
        fully_enriched: full,
    }
}

#[test]
fn search_is_case_insensitive() {
    let ps = vec![playlist("Road TRIP"), playlist("Chill"), playlist("trip hop")];
    assert_eq!(search_playlists(&ps, "trip"), vec![0, 2]);
    assert_eq!(search_playlists(&ps, "CHI"), vec![1]);
    assert_eq!(search_playlists(&ps, ""), vec![0, 1, 2]);
    assert_eq!(search_playlists(&ps, "jazz"), Vec::<usize>::new());
    assert_eq!(search_playlists(&vec![playlist("ÉTÉ")], "été"), vec![0]);
}

#[test]
fn imported_search_filters_by_status() {
    let ps = vec![
        imported("Rock A", false, false, 5),
        imported("Rock B", true, false, 5),
        imported("Pop C", true, true, 5),
    ];
    let all = "all".to_string();
    assert_eq!(search_imported_playlists(&ps, "rock", &all), vec![0, 1]);
    assert_eq!(search_imported_playlists(&ps, "", &"not_enriched".to_string()), vec![0]);
    assert_eq!(search_imported_playlists(&ps, "", &"partially_enriched".to_string()), vec![1]);
    assert_eq!(search_imported_playlists(&ps, "", &"fully_enriched".to_string()), vec![2]);
    assert_eq!(search_imported_playlists(&ps, "pop", &"not_enriched".to_string()), Vec::<usize>::new());
}

#[test]
fn filters_are_added_and_removed() {
    assert!(node_type_takes_confidence(&"Genre".to_string()));
    assert!(node_type_takes_confidence(&"UserTag".to_string()));
    assert!(!node_type_takes_confidence(&"Language".to_string()));
    let mut fs: Vec<PlaylistFilter> = Vec::new();
    let t = 0.7f64.to_bits();
    assert!(add_filter(&mut fs, "Genre".to_string(), "Rock".to_string(), t));
    assert!(add_filter(&mut fs, "Language".to_string(), "English".to_string(), t));
    assert!(!add_filter(&mut fs, String::new(), "x".to_string(), t));
    assert!(!add_filter(&mut fs, "Genre".to_string(), String::new(), t));
    assert!(!add_filter(&mut fs, "Genre".to_string(), "Rock".to_string(), 0.2f64.to_bits()));
    assert!(add_filter(&mut fs, "Culture".to_string(), "Rock".to_string(), t));
    assert_eq!(fs.len(), 3);
    remove_filter(&mut fs, 2);
    assert_eq!(fs.len(), 2);
    assert_eq!(fs[0].min_confidence_bits, Some(t));
    assert_eq!(fs[1].min_confidence_bits, None);
    remove_filter(&mut fs, 0);
    assert_eq!(fs.len(), 1);
    assert_eq!(fs[0].value, "English");
}

#[test]
fn button_labels() {
    assert_eq!(generate_button_label(true, 3), "[ GENERATING PLAYLIST... ]");
    assert_eq!(generate_button_label(false, 0), "[ ADD FILTERS TO GENERATE ]");
    assert_eq!(generate_button_label(false, 2), "[ GENERATE PLAYLIST (2 filters) ]");
    let p = imported("x", false, false, 12);
    assert_eq!(enrich_button_label(true, &p, 10), "[ ENRICHING 10 SONGS... ]");
    assert_eq!(enrich_button_label(false, &p, 10), "[ ENRICH 10 SONGS ]");
    assert_eq!(enrich_button_label(false, &imported("x", true, true, 12), 10), "[ FULLY ENRICHED ]");
    assert_eq!(enrich_button_label(false, &imported("x", false, false, 0), 10), "[ EMPTY ]");
}

#[test]
fn status_tones_and_spinner() {
    assert_eq!(status_tone("\u{2705} Successfully imported"), StatusTone::Success);
    assert_eq!(status_tone("SUCCESS: done"), StatusTone::Success);
    assert_eq!(status_tone("ERROR: failed"), StatusTone::Failure);
    assert_eq!(status_tone("\u{274c} nope"), StatusTone::Failure);
    assert_eq!(status_tone("working"), StatusTone::Neutral);
    assert_eq!(next_spinner_frame(0), 1);
    assert_eq!(next_spinner_frame(9), 0);
    assert_eq!(next_spinner_frame(usize::MAX), (usize::MAX % 10 + 1) % 10);
}

#[test]
fn an_empty_search_shows_every_playlist_the_status_allows() {
    let ps = vec![imported("A", false, false, 5), imported("B", true, false, 5), imported("C", true, true, 5)];
    assert_eq!(search_imported_playlists(&ps, "", &"all".to_string()), vec![0, 1, 2]);
    assert_eq!(search_imported_playlists(&ps, "", &"partially_enriched".to_string()), vec![1]);
    assert_eq!(search_playlists(&vec![playlist("x"), playlist("")], ""), vec![0, 1]);
}

#[test]
fn adding_and_removing_filters_never_repeats_a_pair() {
    let mut fs: Vec<PlaylistFilter> = Vec::new();
    let t = 0.5f64.to_bits();
    for (ty, v) in [("Genre", "Rock"), ("Genre", "Pop"), ("Genre", "Rock"), ("Language", "Rock")] {
        add_filter(&mut fs, ty.to_string(), v.to_string(), t);
    }
    remove_filter(&mut fs, 0);
    add_filter(&mut fs, "Genre".to_string(), "Pop".to_string(), t);
    add_filter(&mut fs, "Genre".to_string(), "Rock".to_string(), t);
    let pairs: Vec<(String, String)> = fs.iter().map(|f| (f.node_type.clone(), f.value.clone())).collect();
    assert_eq!(
        pairs,
        vec![
            ("Genre".to_string(), "Pop".to_string()),
            ("Language".to_string(), "Rock".to_string()),
            ("Genre".to_string(), "Rock".to_string()),
        ]
    );
}
