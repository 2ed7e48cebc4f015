use media_watch::detect::{any_changed, genres_changed, update_state_with, MediaState};
use media_watch::host::{client_name, host_version_parts, poll_action, version_text, PollAction};
use media_watch::hub::{ensure_state, Field, MediaHub};
use media_watch::snapshot::{playback_type_to_string, PlaybackKind, Snapshot};

const ALL_FIELDS: [Field; 10] = [
    Field::Title,
    Field::Artist,
    Field::AlbumTitle,
    Field::AlbumArtist,
    Field::Genres,
    Field::Subtitle,
    Field::TrackNumber,
    Field::AlbumTrackCount,
    Field::PlaybackType,
    Field::Thumbnail,
];

fn song(title: &str, artist: &str) -> Snapshot {
    Snapshot::from_properties(
        title.to_string(),
        artist.to_string(),
        None,
        None,
        None,
        None,
        None,
        Vec::new(),
    )
    .expect("a reading with a title is a snapshot")
}

fn full_song() -> Snapshot {
    Snapshot {
        title: Some("Song A".to_string()),
        artist: Some("Artist X".to_string()),
        album_title: Some("Album".to_string()),
        album_artist: Some("Band".to_string()),
        genres: Some(vec!["Rock".to_string(), "Pop".to_string()]),
        subtitle: Some("Live".to_string()),
        track_number: Some(7),
        album_track_count: Some(12),
        playback_type: Some(PlaybackKind::Music),
        thumbnail_path: Some(" cover.png ".to_string()),
    }
}

fn listening_hub() -> (MediaHub, u64) {
    let mut hub = MediaHub::new();
    let ticket = hub.begin_wait();
    (hub, ticket.initial_version)
}

#[test]
fn first_push_releases_waiter_and_fills_fields() {
    let (mut hub, initial) = listening_hub();
    assert!(!hub.wait_finished(initial));
    assert!(hub.push(Some(song("Song A", "Artist X"))));
    assert!(hub.wait_finished(initial));
    assert_eq!(hub.title(), "Song A");
    assert_eq!(hub.artist(), "Artist X");
    assert_eq!(hub.genres(), "");
}

#[test]
fn identical_push_keeps_version_and_waiter_blocked() {
    let (mut hub, _) = listening_hub();
    assert!(hub.push(Some(song("Song A", "Artist X"))));
    let version = hub.state.version;
    let ticket = hub.begin_wait();
    assert!(!hub.push(Some(song("Song A", "Artist X"))));
    assert_eq!(hub.state.version, version);
    assert!(!hub.wait_finished(ticket.initial_version));
    assert!(hub.push(Some(song("Song B", "Artist X"))));
    assert!(hub.wait_finished(ticket.initial_version));
}

#[test]
fn identical_push_then_halt_releases() {
    let (mut hub, _) = listening_hub();
    hub.push(Some(song("Song A", "Artist X")));
    let ticket = hub.begin_wait();
    assert!(!hub.push(Some(song("Song A", "Artist X"))));
    assert!(!hub.wait_finished(ticket.initial_version));
    hub.halt();
    assert!(hub.wait_finished(ticket.initial_version));
}

#[test]
fn none_on_absent_state_keeps_version() {
    let mut state = MediaState::new();
    assert!(!update_state_with(&mut state, None));
    assert_eq!(state.version, 0);
    assert!(!update_state_with(&mut state, None));
    assert_eq!(state.version, 0);
}

#[test]
fn none_after_media_clears_once() {
    let mut state = MediaState::new();
    assert!(update_state_with(&mut state, Some(full_song())));
    assert_eq!(state.version, 1);
    assert!(update_state_with(&mut state, None));
    assert_eq!(state.version, 2);
    assert!(state.fields.title.is_none());
    assert!(state.fields.genres.is_none());
    assert!(state.fields.track_number.is_none());
    assert!(!update_state_with(&mut state, None));
    assert_eq!(state.version, 2);
}

#[test]
fn change_clears_cancellation() {
    let mut state = MediaState::new();
    state.cancelled = true;
    assert!(update_state_with(&mut state, Some(song("a", "b"))));
    assert!(!state.cancelled);
    state.cancelled = true;
    assert!(!update_state_with(&mut state, Some(song("a", "b"))));
    assert!(state.cancelled);
}

#[test]
fn single_field_difference_is_a_change() {
    let mut state = MediaState::new();
    update_state_with(&mut state, Some(full_song()));
    let mut next = full_song();
    next.subtitle = Some("Studio".to_string());
    assert!(update_state_with(&mut state, Some(next)));
    assert_eq!(state.fields.subtitle.as_deref(), Some("Studio"));
    assert_eq!(state.fields.title.as_deref(), Some("Song A"));
    assert_eq!(state.fields.album_title.as_deref(), Some("Album"));
    assert_eq!(state.fields.track_number, Some(7));
    assert_eq!(state.version, 2);

    let mut next = full_song();
    next.subtitle = Some("Studio".to_string());
    next.genres = Some(vec!["Rock".to_string()]);
    assert!(update_state_with(&mut state, Some(next)));
    assert_eq!(state.fields.genres, Some(vec!["Rock".to_string()]));

    let mut next = full_song();
    next.subtitle = Some("Studio".to_string());
    next.genres = Some(vec!["Rock".to_string()]);
    next.playback_type = Some(PlaybackKind::Video);
    assert!(update_state_with(&mut state, Some(next)));
    assert_eq!(state.fields.playback_type, Some(PlaybackKind::Video));
    assert_eq!(state.version, 4);
}

#[test]
fn absent_field_in_incoming_overwrites() {
    let mut state = MediaState::new();
    update_state_with(&mut state, Some(full_song()));
    let mut next = full_song();
    next.album_title = None;
    assert!(update_state_with(&mut state, Some(next)));
    assert!(state.fields.album_title.is_none());
}

#[test]
fn version_wraps_at_maximum() {
    let mut state = MediaState::new();
    state.version = u64::MAX;
    assert!(update_state_with(&mut state, Some(song("a", "b"))));
    assert_eq!(state.version, 0);
}

#[test]
fn blank_title_and_artist_is_absent() {
    let r = Snapshot::from_properties(
        "  ".to_string(),
        "\t\n".to_string(),
        Some("Album".to_string()),
        None,
        None,
        Some(3),
        Some(PlaybackKind::Music),
        vec!["Rock".to_string()],
    );
    assert!(r.is_none());
    let r = Snapshot::from_properties(
        String::new(),
        "\u{3000}".to_string(),
        None,
        None,
        None,
        None,
        None,
        Vec::new(),
    );
    assert!(r.is_none());

    let mut a = MediaState::new();
    update_state_with(&mut a, Some(full_song()));
    assert!(update_state_with(&mut a, None));
    assert!(!update_state_with(&mut a, None));
}

#[test]
fn one_blank_of_two_is_present() {
    let r = Snapshot::from_properties(
        " ".to_string(),
        "Artist".to_string(),
        None,
        None,
        None,
        None,
        None,
        Vec::new(),
    )
    .unwrap();
    assert_eq!(r.title.as_deref(), Some(" "));
    assert_eq!(r.artist.as_deref(), Some("Artist"));
}

#[test]
fn properties_are_normalized() {
    let r = Snapshot::from_properties(
        "T".to_string(),
        "A".to_string(),
        Some("Al".to_string()),
        Some("AA".to_string()),
        Some("Sub".to_string()),
        Some(5),
        Some(PlaybackKind::Image),
        Vec::new(),
    )
    .unwrap();
    assert!(r.genres.is_none());
    assert!(r.album_track_count.is_none());
    assert!(r.thumbnail_path.is_none());
    assert_eq!(r.track_number, Some(5));
    assert_eq!(r.playback_type, Some(PlaybackKind::Image));
    assert_eq!(r.subtitle.as_deref(), Some("Sub"));
    let r = Snapshot::from_properties(
        "T".to_string(),
        "A".to_string(),
        None,
        None,
        None,
        None,
        None,
        vec!["Jazz".to_string()],
    )
    .unwrap();
    assert_eq!(r.genres, Some(vec!["Jazz".to_string()]));
}

#[test]
fn waiters_all_released_by_one_change() {
    let (mut hub, first) = listening_hub();
    let waiters: Vec<u64> = (0..8).map(|_| hub.begin_wait().initial_version).collect();
    assert!(waiters.iter().all(|&v| v == first && !hub.wait_finished(v)));
    assert!(hub.push(Some(song("x", "y"))));
    assert!(waiters.iter().all(|&v| hub.wait_finished(v)));
}

#[test]
fn halt_releases_all_and_empties_accessors() {
    let (mut hub, _) = listening_hub();
    hub.push(Some(full_song()));
    let waiters: Vec<u64> = (0..5).map(|_| hub.begin_wait().initial_version).collect();
    assert!(waiters.iter().all(|&v| !hub.wait_finished(v)));
    hub.halt();
    assert!(!hub.is_listening());
    assert!(waiters.iter().all(|&v| hub.wait_finished(v)));
    for f in ALL_FIELDS {
        assert_eq!(hub.field_text(f), "");
    }
    assert_eq!(hub.title(), "");
    assert_eq!(hub.genres(), "");
    assert_eq!(hub.state.fields.title.as_deref(), Some("Song A"));
}

#[test]
fn halt_then_wait_rearms() {
    let (mut hub, _) = listening_hub();
    hub.push(Some(full_song()));
    hub.halt();
    let ticket = hub.begin_wait();
    assert!(!ticket.start_watcher);
    assert!(!hub.wait_finished(ticket.initial_version));
    assert_eq!(hub.title(), "Song A");
}

#[test]
fn accessors_empty_before_first_wait() {
    let hub = MediaHub::new();
    assert!(!hub.is_listening());
    assert!(!hub.watcher_started);
    for f in ALL_FIELDS {
        assert_eq!(hub.field_text(f), "");
    }
    assert_eq!(hub.artist(), "");
    assert_eq!(hub.thumbnail(), "");
}

#[test]
fn push_ignored_while_not_listening() {
    let mut hub = MediaHub::new();
    assert!(!hub.push(Some(full_song())));
    assert_eq!(hub.state.version, 0);
    assert!(hub.state.fields.title.is_none());
}

#[test]
fn only_first_wait_starts_watcher() {
    let mut hub = MediaHub::new();
    assert!(hub.begin_wait().start_watcher);
    assert!(!hub.begin_wait().start_watcher);
    hub.halt();
    assert!(!hub.begin_wait().start_watcher);
}

#[test]
fn accessors_present_values() {
    let (mut hub, _) = listening_hub();
    hub.push(Some(full_song()));
    assert_eq!(hub.title(), "Song A");
    assert_eq!(hub.artist(), "Artist X");
    assert_eq!(hub.albumtitle(), "Album");
    assert_eq!(hub.albumartist(), "Band");
    assert_eq!(hub.genres(), "Rock, Pop");
    assert_eq!(hub.subtitle(), "Live");
    assert_eq!(hub.tracknumber(), "7");
    assert_eq!(hub.albumtrackcount(), "12");
    assert_eq!(hub.playbacktype(), "Music");
    assert_eq!(hub.thumbnail(), "cover.png");
}

#[test]
fn accessors_trim_text() {
    let (mut hub, _) = listening_hub();
    let mut s = full_song();
    s.title = Some("  Padded Title \t".to_string());
    s.album_artist = Some("   ".to_string());
    hub.push(Some(s));
    assert_eq!(hub.title(), "Padded Title");
    assert_eq!(hub.albumartist(), "");
}

#[test]
fn accessors_absent_fields_are_empty() {
    let (mut hub, _) = listening_hub();
    hub.push(Some(song("T", "A")));
    assert_eq!(hub.albumtitle(), "");
    assert_eq!(hub.tracknumber(), "");
    assert_eq!(hub.albumtrackcount(), "");
    assert_eq!(hub.playbacktype(), "");
    assert_eq!(hub.thumbnail(), "");
    assert_eq!(hub.subtitle(), "");
}

#[test]
fn number_fields_in_decimal() {
    let (mut hub, _) = listening_hub();
    let mut s = song("T", "A");
    s.track_number = Some(0);
    s.album_track_count = Some(u32::MAX);
    hub.push(Some(s));
    assert_eq!(hub.tracknumber(), "0");
    assert_eq!(hub.albumtrackcount(), "4294967295");
}

#[test]
fn thumbnail_is_trimmed() {
    let (mut hub, _) = listening_hub();
    let mut s = song("T", "A");
    s.thumbnail_path = Some("  ".to_string());
    hub.push(Some(s));
    assert_eq!(hub.thumbnail(), "");
}

#[test]
fn single_genre_has_no_separator() {
    let (mut hub, _) = listening_hub();
    let mut s = song("T", "A");
    s.genres = Some(vec!["Ambient".to_string()]);
    hub.push(Some(s));
    assert_eq!(hub.genres(), "Ambient");
}

#[test]
fn playback_kind_names() {
    assert_eq!(playback_type_to_string(PlaybackKind::Music), "Music");
    assert_eq!(playback_type_to_string(PlaybackKind::Video), "Video");
    assert_eq!(playback_type_to_string(PlaybackKind::Image), "Image");
    assert_eq!(playback_type_to_string(PlaybackKind::Unknown), "Unknown");
}

#[test]
fn optional_text_comparison() {
    let a = Some("x".to_string());
    let b = Some("y".to_string());
    assert!(!any_changed(&a, &a.clone()));
    assert!(any_changed(&a, &b));
    assert!(any_changed(&a, &None));
    assert!(any_changed(&None, &b));
    assert!(!any_changed(&None, &None));
}

#[test]
fn genre_list_comparison() {
    let a = Some(vec!["a".to_string(), "b".to_string()]);
    let b = Some(vec!["a".to_string(), "c".to_string()]);
    let c = Some(vec!["a".to_string()]);
    assert!(!genres_changed(&a, &a.clone()));
    assert!(genres_changed(&a, &b));
    assert!(genres_changed(&a, &c));
    assert!(genres_changed(&a, &None));
    assert!(!genres_changed(&None, &None));
}

#[test]
fn hub_created_once() {
    let mut slot: Option<MediaHub> = None;
    ensure_state(&mut slot);
    assert!(slot.is_some());
    slot.as_mut().unwrap().begin_wait();
    ensure_state(&mut slot);
    assert!(slot.as_ref().unwrap().is_listening());
}

#[test]
fn poll_decisions() {
    assert_eq!(poll_action(Some(1)), PollAction::Ready);
    assert_eq!(poll_action(Some(0)), PollAction::Pending);
    assert_eq!(poll_action(Some(2)), PollAction::Failed);
    assert_eq!(poll_action(Some(3)), PollAction::Failed);
    assert_eq!(poll_action(None), PollAction::Failed);
}

#[test]
fn client_names() {
    assert_eq!(client_name(Some("mIRC".to_string())), "mIRC");
    assert_eq!(client_name(Some("mIRC32".to_string())), "mIRC32");
    assert_eq!(client_name(Some("AdiIRC_main".to_string())), "AdiIRC");
    assert_eq!(client_name(None), "Unknown");
}

#[test]
fn version_line_format() {
    assert_eq!(host_version_parts(0x0002_0007), (7, 2));
    assert_eq!(
        version_text("plugin", "0.1.0", "mIRC", 0x0001_0007, "x86_64"),
        "plugin 0.1.0 on mIRC v7.1 (x86_64)"
    );
}
