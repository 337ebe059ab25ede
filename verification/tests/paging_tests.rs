use better_spotify::models::{
    PlaylistItemTrackWrapper, SpotifyPlaylistItem, SpotifyPlaylistTrackResponse, SpotifyPlaylistsResponse,
    SpotifyTrackItem,
};
use better_spotify::paging::{
    dedup_playlists_by_id, next_limit_offset, next_offset, take_present_tracks, PageError, PlaylistPager,
    PlaylistPagerStep, TrackPager, TrackPagerStep, TRACK_PAGE_LIMIT,
};
use better_spotify::text::IntParseError;

fn playlist(id: &str, name: &str) -> SpotifyPlaylistItem {
    SpotifyPlaylistItem {
        id: id.to_string(),
        name: name.to_string(),
        images: None,
        description: None,
        uri: format!("spotify:playlist:{}", id),
    }
}

fn track(id: &str) -> SpotifyTrackItem {
    SpotifyTrackItem {
        id: id.to_string(),
        uri: format!("spotify:track:{}", id),
        name: id.to_string(),
        artists: vec![],
        album: None,
        duration_ms: None,
        explicit: None,
        audio_features: None,
    }
}

fn playlists_page(items: Vec<SpotifyPlaylistItem>, next: Option<&str>) -> SpotifyPlaylistsResponse {
    SpotifyPlaylistsResponse {
        items,
        href: "https://api.spotify.com/v1/me/playlists".to_string(),
        limit: 50,
        next: next.map(|s| s.to_string()),
        offset: 0,
        previous: None,
        total: 0,
    }
}

fn tracks_page(items: Vec<Option<SpotifyTrackItem>>, next: Option<&str>) -> SpotifyPlaylistTrackResponse {
    SpotifyPlaylistTrackResponse {
        items: items.into_iter().map(|t| PlaylistItemTrackWrapper { track: t }).collect(),
        limit: 50,
        next: next.map(|s| s.to_string()),
        offset: 0,
        previous: None,
        total: 0,
    }
}

#[test]
fn next_link_gives_offset_and_limit() {
    let next = "https://api.spotify.com/v1/me/playlists?offset=100&limit=50";
    assert_eq!(next_offset(next), Ok(100));
    assert_eq!(next_limit_offset(next), Ok((50, 100)));
}

#[test]
fn the_last_offset_pair_counts() {
    assert_eq!(next_offset("https://a.example/x?offset=1&offset=7"), Ok(7));
    assert_eq!(next_offset("https://a.example/x?offset=%2B12"), Ok(12));
}

#[test]
fn next_link_errors_are_reported() {
    match next_offset("not a url") {
        Err(PageError::InvalidNextUrl(m)) => assert_eq!(m, "relative URL without a base"),
        other => panic!("unexpected {:?}", other),
    }
    let missing = next_offset("https://a.example/x?limit=5").unwrap_err();
    assert_eq!(missing, PageError::MissingOffset);
    assert_eq!(missing.message(), "Missing 'offset' in Spotify's next URL");
    let bad = next_offset("https://a.example/x?offset=abc").unwrap_err();
    assert_eq!(bad, PageError::InvalidOffset(IntParseError::InvalidDigit));
    assert_eq!(bad.message(), "Invalid 'offset' in next URL: invalid digit found in string");
    assert_eq!(next_offset("https://a.example/x?offset="), Err(PageError::InvalidOffset(IntParseError::Empty)));
    assert_eq!(
        next_offset("https://a.example/x?offset=99999999999"),
        Err(PageError::InvalidOffset(IntParseError::PosOverflow))
    );
    let no_limit = next_limit_offset("https://a.example/x?offset=5").unwrap_err();
    assert_eq!(no_limit, PageError::MissingLimit);
    assert_eq!(no_limit.message(), "Missing 'offset' in Spotify's next URL");
    assert_eq!(
        next_limit_offset("https://a.example/x?offset=5&limit=-1"),
        Err(PageError::InvalidLimit(IntParseError::InvalidDigit))
    );
    assert_eq!(next_limit_offset("https://a.example/x?limit=5"), Err(PageError::MissingOffset));
}

#[test]
fn duplicates_keep_their_first_occurrence() {
    let items = vec![playlist("a", "A1"), playlist("b", "B"), playlist("a", "A2"), playlist("c", "C")];
    let kept = dedup_playlists_by_id(items);
    let names: Vec<&str> = kept.iter().map(|p| p.name.as_str()).collect();
    assert_eq!(names, vec!["A1", "B", "C"]);
    assert!(dedup_playlists_by_id(vec![]).is_empty());
}

#[test]
fn missing_tracks_are_skipped() {
    let page = tracks_page(vec![Some(track("1")), None, Some(track("2"))], None);
    let ids: Vec<String> = take_present_tracks(page.items).into_iter().map(|t| t.id).collect();
    assert_eq!(ids, vec!["1", "2"]);
}

#[test]
fn playlist_walk_follows_next_links() {
    let (pager, limit, offset) = PlaylistPager::start();
    assert_eq!((limit, offset), (50, 0));
    let first = playlists_page(
        vec![playlist("a", "A"), playlist("b", "B")],
        Some("https://api.spotify.com/v1/me/playlists?offset=2&limit=2"),
    );
    let pager = match pager.on_page(first) {
        PlaylistPagerStep::Fetch { pager, limit, offset } => {
            assert_eq!((limit, offset), (2, 2));
            pager
        },
        _ => panic!("expected another page"),
    };
    match pager.on_page(playlists_page(vec![playlist("a", "A again"), playlist("c", "C")], None)) {
        PlaylistPagerStep::Done(v) => {
            let ids: Vec<&str> = v.iter().map(|p| p.id.as_str()).collect();
            assert_eq!(ids, vec!["a", "b", "c"]);
            assert_eq!(v[0].name, "A");
        },
        _ => panic!("expected the end"),
    }
}

#[test]
fn playlist_walk_fails_on_a_bad_link() {
    let (pager, _, _) = PlaylistPager::start();
    match pager.on_page(playlists_page(vec![], Some("https://a.example/?offset=x&limit=1"))) {
        PlaylistPagerStep::Failed(e) => assert_eq!(e, PageError::InvalidOffset(IntParseError::InvalidDigit)),
        _ => panic!("expected a failure"),
    }
}

#[test]
fn track_walk_collects_present_tracks() {
    assert_eq!(TRACK_PAGE_LIMIT, 50);
    let (pager, offset) = TrackPager::start();
    assert_eq!(offset, 0);
    let pager = match pager.on_page(tracks_page(
        vec![Some(track("1")), None],
        Some("https://api.spotify.com/v1/playlists/p/tracks?offset=50&limit=50"),
    )) {
        TrackPagerStep::Fetch { pager, offset } => {
            assert_eq!(offset, 50);
            pager
        },
        _ => panic!("expected another page"),
    };
    match pager.on_page(tracks_page(vec![Some(track("2"))], None)) {
        TrackPagerStep::Done(v) => {
            let ids: Vec<String> = v.into_iter().map(|t| t.id).collect();
            assert_eq!(ids, vec!["1", "2"]);
        },
        _ => panic!("expected the end"),
    }
}

#[test]
fn an_empty_last_track_page_ends_the_walk() {
    let (pager, _) = TrackPager::start();
    match pager.on_page(tracks_page(vec![], None)) {
        TrackPagerStep::Done(v) => assert!(v.is_empty()),
        _ => panic!("expected the end"),
    }
    let (pager, _) = TrackPager::start();
    match pager.on_page(tracks_page(vec![], Some("nope"))) {
        TrackPagerStep::Failed(PageError::InvalidNextUrl(_)) => {},
        _ => panic!("expected a failure"),
    }
}
