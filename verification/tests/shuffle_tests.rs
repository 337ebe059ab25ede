use better_spotify::models::{NewPlaylistDetails, SpotifyImageObject, SpotifyPlaylistItem, SpotifyTrackItem};
use better_spotify::shuffle::{
    batches_of, pause_after, playlist_images_url, playlist_tracks_url, playlist_web_url, shuffled_description,
    shuffled_name, track_uris, user_playlists_url, ShuffleAction, ShuffleEvent, ShuffleJob, ShuffleStage, StageWork,
    BATCH_SIZE,
};

fn track(n: usize) -> SpotifyTrackItem {
    SpotifyTrackItem {
        id: format!("t{}", n),
        uri: format!("spotify:track:t{}", n),
        name: format!("Track {}", n),
        artists: vec![],
        album: None,
        duration_ms: None,
        explicit: None,
        audio_features: None,
    }
}

fn created(id: &str, images: Option<Vec<SpotifyImageObject>>) -> SpotifyPlaylistItem {
    SpotifyPlaylistItem {
        id: id.to_string(),
        name: "whatever".to_string(),
        images,
        description: None,
        uri: format!("spotify:playlist:{}", id),
    }
}

#[test]
fn urls_and_names() {
    assert_eq!(shuffled_name("Road Trip"), "Road Trip - TRUE SHUFFLED");
    assert_eq!(shuffled_description("Road Trip"), "A true random shuffle of 'Road Trip'!");
    assert_eq!(user_playlists_url("bob"), "https://api.spotify.com/v1/users/bob/playlists");
    assert_eq!(playlist_tracks_url("p1"), "https://api.spotify.com/v1/playlists/p1/tracks");
    assert_eq!(playlist_images_url("p1"), "https://api.spotify.com/v1/playlists/p1/images");
    assert_eq!(playlist_web_url("p1"), "https://open.spotify.com/playlist/p1");
}

#[test]
fn uris_keep_track_order() {
    let uris = track_uris(vec![track(2), track(1)]);
    assert_eq!(uris, vec!["spotify:track:t2", "spotify:track:t1"]);
}

#[test]
fn batches_of_250_are_100_100_50() {
    assert_eq!(BATCH_SIZE, 100);
    let v: Vec<String> = (0..250).map(|i| i.to_string()).collect();
    let b = batches_of(&v);
    assert_eq!(b.iter().map(|c| c.len()).collect::<Vec<_>>(), vec![100, 100, 50]);
    assert_eq!(b.concat(), v);
    assert!(batches_of(&vec![]).is_empty());
    assert_eq!(batches_of(&(0..100).map(|i| i.to_string()).collect()).len(), 1);
}

#[test]
fn pauses_only_between_full_batches_of_a_long_list() {
    assert!(pause_after(250, 100));
    assert!(!pause_after(250, 50));
    assert!(!pause_after(100, 100));
}

#[test]
fn a_shuffle_runs_to_the_end() {
    let (mut job, a) = ShuffleJob::new("orig".to_string(), "Mix".to_string());
    assert!(matches!(a, ShuffleAction::GetUserId));
    match job.on_user_id(Ok("bob".to_string())) {
        ShuffleAction::FetchTracks { playlist_id } => assert_eq!(playlist_id, "orig"),
        _ => panic!("expected a track fetch"),
    }
    let tracks: Vec<SpotifyTrackItem> = (0..150).map(track).collect();
    match job.on_tracks(Ok(tracks)) {
        ShuffleAction::CreatePlaylist { url, name, description } => {
            assert_eq!(url, "https://api.spotify.com/v1/users/bob/playlists");
            assert_eq!(name, "Mix - TRUE SHUFFLED");
            assert_eq!(description, "A true random shuffle of 'Mix'!");
        },
        _ => panic!("expected a create"),
    }
    let mut sent: Vec<String> = Vec::new();
    let mut a = job.on_created(Ok(created("new", None)));
    let mut pauses = Vec::new();
    loop {
        match a {
            ShuffleAction::AddTracks { url, uris, pause_after } => {
                assert_eq!(url, "https://api.spotify.com/v1/playlists/new/tracks");
                pauses.push(pause_after);
                sent.extend(uris);
                a = job.on_tracks_added(Ok(()));
            },
            ShuffleAction::FetchOriginalPlaylist { playlist_id } => {
                assert_eq!(playlist_id, "orig");
                break;
            },
            _ => panic!("unexpected action"),
        }
    }
    assert_eq!(pauses, vec![true, false]);
    let mut expected: Vec<String> = (0..150).map(|n| format!("spotify:track:t{}", n)).collect();
    sent.sort();
    expected.sort();
    assert_eq!(sent, expected);
    let img = SpotifyImageObject { url: "https://img/1".to_string(), height: None, width: None };
    match job.on_original(Ok(created("orig", Some(vec![img])))) {
        ShuffleAction::FetchImage { url } => assert_eq!(url, "https://img/1"),
        _ => panic!("expected an image fetch"),
    }
    match job.on_image(Some(b"hello".to_vec())) {
        ShuffleAction::UploadImage { url, body } => {
            assert_eq!(url, "https://api.spotify.com/v1/playlists/new/images");
            assert_eq!(body, "aGVsbG8=");
        },
        _ => panic!("expected an upload"),
    }
    match job.on_uploaded(Err("denied".to_string())) {
        ShuffleAction::Finished(d) => {
            assert_eq!(
                d,
                NewPlaylistDetails {
                    id: "new".to_string(),
                    name: "Mix - TRUE SHUFFLED".to_string(),
                    external_url: "https://open.spotify.com/playlist/new".to_string(),
                }
            );
        },
        _ => panic!("expected the end"),
    }
}

#[test]
fn shuffle_failures_are_worded() {
    let (mut job, _) = ShuffleJob::new("orig".to_string(), "Mix".to_string());
    match job.on_user_id(Err("401".to_string())) {
        ShuffleAction::Failed(m) => assert_eq!(m, "Failed to get user ID: 401"),
        _ => panic!("expected a failure"),
    }
    match job.on_tracks(Err("timeout".to_string())) {
        ShuffleAction::Failed(m) => assert_eq!(m, "Failed to fetch tracks for 'Mix': timeout"),
        _ => panic!("expected a failure"),
    }
    match job.on_tracks(Ok(vec![])) {
        ShuffleAction::Failed(m) => assert_eq!(m, "Playlist 'Mix' is empty."),
        _ => panic!("expected a failure"),
    }
    match job.on_created(Err("boom".to_string())) {
        ShuffleAction::Failed(m) => assert_eq!(m, "boom"),
        _ => panic!("expected a failure"),
    }
    match job.on_original(Err("gone".to_string())) {
        ShuffleAction::Finished(d) => assert_eq!(d.name, "Mix - TRUE SHUFFLED"),
        _ => panic!("expected the end"),
    }
    match job.on_image(None) {
        ShuffleAction::Finished(_) => {},
        _ => panic!("expected the end"),
    }
}

#[test]
fn stages_of_the_shuffle_page() {
    let s = ShuffleStage::Idle.next(ShuffleEvent::Start);
    assert_eq!(s, ShuffleStage::FetchingTracks);
    assert_eq!(s.clone().next(ShuffleEvent::Start), ShuffleStage::FetchingTracks);
    assert_eq!(
        s.clone().next(ShuffleEvent::TracksFetched(Ok(3))),
        ShuffleStage::ShufflingAndCreatingPlaylist { num_tracks_to_shuffle: 3 }
    );
    assert_eq!(
        s.clone().next(ShuffleEvent::TracksFetched(Ok(0))),
        ShuffleStage::Error("Selected playlist is empty or no tracks were found.".to_string())
    );
    assert_eq!(
        s.clone().next(ShuffleEvent::TracksFetched(Err("x".to_string()))),
        ShuffleStage::Error("Failed to fetch tracks: x".to_string())
    );
    assert_eq!(
        s.clone().next(ShuffleEvent::TracksLost),
        ShuffleStage::Error("Track data was lost before shuffling could start. Please retry.".to_string())
    );
    let err = s.clone().next(ShuffleEvent::ShuffleFinished(Err("y".to_string())));
    assert_eq!(err, ShuffleStage::Error("Failed to shuffle and save playlist: y".to_string()));
    assert_eq!(err.clone().next(ShuffleEvent::Start), err);
    assert_eq!(err.next(ShuffleEvent::Retry), ShuffleStage::Idle);
    assert_eq!(ShuffleStage::Idle.next(ShuffleEvent::Retry), ShuffleStage::Idle);
    let d = NewPlaylistDetails { id: "i".to_string(), name: "n".to_string(), external_url: "u".to_string() };
    assert_eq!(s.next(ShuffleEvent::ShuffleFinished(Ok(d.clone()))), ShuffleStage::Completed(d));
}

#[test]
fn each_stage_starts_its_work() {
    assert_eq!(ShuffleStage::Idle.work(), StageWork::Nothing);
    assert_eq!(ShuffleStage::FetchingTracks.work(), StageWork::FetchTracks);
    assert_eq!(ShuffleStage::ShufflingAndCreatingPlaylist { num_tracks_to_shuffle: 2 }.work(), StageWork::ShuffleAndSave);
    assert_eq!(ShuffleStage::Error("x".to_string()).work(), StageWork::Nothing);
    let d = NewPlaylistDetails { id: "i".to_string(), name: "n".to_string(), external_url: "u".to_string() };
    let mut s = ShuffleStage::Idle;
    for e in [
        ShuffleEvent::Start,
        ShuffleEvent::TracksFetched(Ok(4)),
        ShuffleEvent::ShuffleFinished(Ok(d.clone())),
    ] {
        s = s.next(e);
    }
    assert_eq!(s.work(), StageWork::Nothing);
    assert_eq!(s, ShuffleStage::Completed(d));
}
