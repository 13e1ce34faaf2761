use jellium::discord::ipc::{
    handshake_frame, on_frame, read_frame, read_header, send_activity, write_frame, FrameError,
    ReaderStep, MAX_FRAME_LEN, OP_CLOSE, OP_FRAME, OP_HANDSHAKE, OP_PING, OP_PONG,
};
use jellium::discord::projection::Activity;
use jellium::discord::sink::{
    apply, is_interesting, is_valid_application_id, project_state, resolve_application_id, start,
    Backoff, Presence, State, MIN_PUSH_INTERVAL, RECONNECT_MAX, RECONNECT_MIN, WATCHDOG,
};
use jellium::discord::socket::{candidates, join_path, pipe_candidates, same_path, RuntimeDirs};
use jellium::playback::{
    ItemKind, MediaMetadata, MediaType, PlaybackEvent, PlaybackEventKind, PlaybackPhase,
    PlaybackSnapshot, Rate,
};
use jellium::time::Instant;
use serde_json::Value;

#[test]
fn frames_round_trip() {
    let mut buf = Vec::new();
    write_frame(&mut buf, OP_FRAME, b"{\"a\":1}").ok();
    let (op, payload) = match read_frame(buf.as_slice()) {
        Ok(v) => v,
        Err(_) => unreachable!("round trip"),
    };
    assert_eq!(op, OP_FRAME);
    assert_eq!(payload, b"{\"a\":1}");
}

#[test]
fn header_is_little_endian() {
    let mut buf = Vec::new();
    write_frame(&mut buf, OP_HANDSHAKE, b"hi").ok();
    assert_eq!(&buf[0..4], &[0, 0, 0, 0]);
    assert_eq!(&buf[4..8], &[2, 0, 0, 0]);
    assert_eq!(&buf[8..], b"hi");
}

#[test]
fn oversized_length_is_rejected_before_allocating() {
    let mut frame = Vec::new();
    frame.extend_from_slice(&OP_FRAME.to_le_bytes());
    frame.extend_from_slice(&u32::MAX.to_le_bytes());
    assert!(read_frame(frame.as_slice()).is_err());
    assert_eq!(read_header(frame.as_slice()), Err(FrameError::TooLarge));
}

#[test]
fn truncated_frame_is_an_error_not_a_panic() {
    let mut frame = Vec::new();
    frame.extend_from_slice(&OP_FRAME.to_le_bytes());
    frame.extend_from_slice(&64u32.to_le_bytes());
    frame.extend_from_slice(b"short");
    assert!(read_frame(frame.as_slice()).is_err());
    assert_eq!(read_frame(frame.as_slice()), Err(FrameError::Truncated));
}

fn dirs(xdg: &str, tmpdir: &str) -> RuntimeDirs {
    RuntimeDirs {
        xdg_runtime_dir: Some(xdg.to_owned()),
        tmpdir: Some(tmpdir.to_owned()),
        tmp: None,
        temp: Some(String::new()),
    }
}

#[test]
fn candidates_are_probed_in_index_order() {
    let c = candidates(&dirs("/run/user/1000", "/var/tmp"));
    assert!(!c.is_empty());
    let first = c.first().cloned();
    assert_eq!(
        first.as_deref().map(|s| s.ends_with("discord-ipc-0")),
        Some(true)
    );
    for (i, path) in c.iter().enumerate() {
        assert!(path.ends_with(&format!("discord-ipc-{}", i % 10)), "{path}");
    }
}

#[test]
fn sandboxed_installs_are_probed_after_the_plain_socket() {
    let c = candidates(&dirs("/run/user/1000", "/var/tmp/"));
    assert_eq!(c.len(), 150);
    assert_eq!(c[0], "/run/user/1000/discord-ipc-0");
    assert_eq!(c[9], "/run/user/1000/discord-ipc-9");
    assert_eq!(c[10], "/run/user/1000/app/com.discordapp.Discord/discord-ipc-0");
    assert_eq!(
        c[20],
        "/run/user/1000/app/com.discordapp.DiscordCanary/discord-ipc-0"
    );
    assert_eq!(
        c[30],
        "/run/user/1000/app/com.discordapp.DiscordPTB/discord-ipc-0"
    );
    assert_eq!(c[49], "/run/user/1000/snap.discord/discord-ipc-9");
    assert_eq!(c[50], "/var/tmp/discord-ipc-0");
    assert_eq!(c[100], "/tmp/discord-ipc-0");
}

#[test]
fn a_directory_named_twice_in_a_row_is_probed_once() {
    let c = candidates(&dirs("/tmp", "/tmp/"));
    assert_eq!(c.len(), 50);
    assert_eq!(c[0], "/tmp/discord-ipc-0");
    let nowhere = RuntimeDirs {
        xdg_runtime_dir: None,
        tmpdir: None,
        tmp: None,
        temp: None,
    };
    assert_eq!(candidates(&nowhere), c);
}

#[test]
fn paths_compare_by_their_components() {
    for (a, b) in [
        ("/tmp", "/tmp/"),
        ("/tmp", "//tmp"),
        ("/tmp/x", "/tmp/./x"),
        ("a/b", "a//b"),
        ("", ""),
        (".", "./"),
        ("/tmp", "tmp"),
        ("/tmp", "/tmp/x"),
        ("./a", "a"),
        ("a/..", "a"),
        ("", "."),
        ("/", "/."),
    ] {
        assert_eq!(
            same_path(a, b),
            std::path::Path::new(a) == std::path::Path::new(b),
            "{a:?} {b:?}"
        );
    }
    for (a, b) in [("/tmp", "x"), ("/tmp/", "x"), ("", "x"), ("/", "x")] {
        assert_eq!(
            join_path(a, b),
            std::path::Path::new(a).join(b).to_string_lossy()
        );
    }
}

#[test]
fn pipes_are_numbered_from_zero() {
    let c = pipe_candidates();
    assert_eq!(c.len(), 10);
    assert_eq!(c[0], r"\\.\pipe\discord-ipc-0");
    assert_eq!(c[9], r"\\.\pipe\discord-ipc-9");
}

#[test]
fn the_largest_frame_is_still_read() {
    let payload = vec![7u8; MAX_FRAME_LEN as usize];
    let mut buf = Vec::new();
    assert_eq!(write_frame(&mut buf, OP_FRAME, &payload), Ok(()));
    assert_eq!(read_frame(&buf), Ok((OP_FRAME, payload)));
    let mut over = Vec::new();
    let larger = vec![7u8; MAX_FRAME_LEN as usize + 1];
    assert_eq!(write_frame(&mut over, OP_FRAME, &larger), Ok(()));
    assert_eq!(read_frame(&over), Err(FrameError::TooLarge));
}

#[test]
fn every_cut_of_a_frame_is_truncated() {
    let mut buf = Vec::new();
    assert_eq!(write_frame(&mut buf, OP_PING, b"abc"), Ok(()));
    for n in 0..buf.len() {
        assert_eq!(read_frame(&buf[..n]), Err(FrameError::Truncated), "{n}");
    }
    buf.push(9);
    assert_eq!(read_frame(&buf), Ok((OP_PING, b"abc".to_vec())));
}

#[test]
fn a_ping_is_answered_with_its_own_payload() {
    match on_frame(OP_PING, b"xyz") {
        ReaderStep::Reply(bytes) => {
            assert_eq!(read_frame(&bytes), Ok((OP_PONG, b"xyz".to_vec())));
        }
        other => panic!("{other:?}"),
    }
    assert!(matches!(on_frame(OP_CLOSE, b""), ReaderStep::Closed));
    assert!(matches!(on_frame(OP_FRAME, b"{}"), ReaderStep::Ignore));
    assert!(matches!(on_frame(OP_PONG, b""), ReaderStep::Ignore));
}

fn parsed(frame: &[u8], expected_op: u32) -> Value {
    match read_frame(frame) {
        Ok((op, payload)) => {
            assert_eq!(op, expected_op);
            match serde_json::from_slice(&payload) {
                Ok(v) => v,
                Err(e) => panic!("{e}"),
            }
        }
        Err(e) => panic!("{e:?}"),
    }
}

#[test]
fn the_handshake_names_the_application() {
    let frame = match handshake_frame("1533503787145363616") {
        Ok(f) => f,
        Err(e) => panic!("{e:?}"),
    };
    let v = parsed(&frame, OP_HANDSHAKE);
    assert_eq!(v["v"], 1);
    assert_eq!(v["client_id"], "1533503787145363616");
    assert_eq!(v.as_object().map(|o| o.len()), Some(2));
}

#[test]
fn an_activity_is_sent_with_its_nonce_as_text() {
    let mut members = serde_json::Map::new();
    members.insert("name".to_owned(), Value::from("A \"quoted\" title\n"));
    members.insert("type".to_owned(), Value::from(3));
    let frame = match send_activity(Some(Value::Object(members)), 42, u64::MAX) {
        Ok(f) => f,
        Err(e) => panic!("{e:?}"),
    };
    let v = parsed(&frame, OP_FRAME);
    assert_eq!(v["cmd"], "SET_ACTIVITY");
    assert_eq!(v["nonce"], "18446744073709551615");
    assert_eq!(v["args"]["pid"], 42);
    assert_eq!(v["args"]["activity"]["name"], "A \"quoted\" title\n");
    assert_eq!(v["args"]["activity"]["type"], 3);
}

#[test]
fn clearing_the_card_sends_a_null() {
    let frame = match send_activity(None, 1, 1) {
        Ok(f) => f,
        Err(e) => panic!("{e:?}"),
    };
    let v = parsed(&frame, OP_FRAME);
    assert!(v["args"]
        .as_object()
        .map(|o| o.contains_key("activity"))
        .unwrap_or(false));
    assert!(v["args"]["activity"].is_null());
}

#[test]
fn updates_are_written_in_the_order_of_their_names() {
    let frame = match send_activity(None, 7, 8) {
        Ok(f) => f,
        Err(e) => panic!("{e:?}"),
    };
    let text = "{\"args\":{\"activity\":null,\"pid\":7},\"cmd\":\"SET_ACTIVITY\",\"nonce\":\"8\"}";
    assert_eq!(read_frame(&frame), Ok((OP_FRAME, text.as_bytes().to_vec())));
}

fn meta(id: &str, title: &str) -> MediaMetadata {
    MediaMetadata {
        id: id.into(),
        title: title.into(),
        kind: ItemKind::Episode,
        media_type: MediaType::Video,
        ..MediaMetadata::default()
    }
}

fn rate(r: f64) -> Rate {
    Rate::from_bits(r.to_bits())
}

fn event(kind: PlaybackEventKind) -> PlaybackEvent {
    PlaybackEvent {
        kind,
        snapshot: PlaybackSnapshot {
            phase: PlaybackPhase::Playing,
            seeking: false,
            buffering: false,
            rate: rate(1.0),
            position_us: 0,
            duration_us: 0,
        },
        metadata: MediaMetadata::default(),
    }
}

#[test]
fn blank_metadata_never_clobbers_a_real_entry() {
    let mut st = State::default();
    let mut ev = event(PlaybackEventKind::MetadataChanged);
    ev.metadata = meta("abc", "Real Title");
    assert!(apply(&mut st, &ev));

    let mut blank = event(PlaybackEventKind::MetadataChanged);
    blank.metadata = MediaMetadata::default();
    assert!(!apply(&mut st, &blank));
    assert_eq!(st.meta.title, "Real Title");
}

#[test]
fn same_id_reannounce_keeps_the_resolved_poster() {
    let mut st = State::default();
    let mut rich = event(PlaybackEventKind::MetadataChanged);
    rich.metadata = meta("abc", "Title");
    rich.metadata.art_url = "https://jf/poster.jpg".into();
    apply(&mut st, &rich);

    let mut poor = event(PlaybackEventKind::MetadataChanged);
    poor.metadata = meta("abc", "Title");
    apply(&mut st, &poor);
    assert_eq!(st.meta.art_url, "https://jf/poster.jpg");
}

#[test]
fn a_different_item_clears_the_poster_and_disarms_the_bar() {
    let mut st = State::default();
    let mut first = event(PlaybackEventKind::MetadataChanged);
    first.metadata = meta("abc", "First");
    first.metadata.art_url = "https://jf/one.jpg".into();
    apply(&mut st, &first);
    st.timeline_armed = true;

    let mut second = event(PlaybackEventKind::MetadataChanged);
    second.metadata = meta("xyz", "Second");
    apply(&mut st, &second);
    assert_eq!(st.meta.art_url, "");
    assert!(!st.timeline_armed);
}

#[test]
fn started_arms_the_bar() {
    let mut st = State::default();
    assert!(!st.timeline_armed);
    assert!(apply(&mut st, &event(PlaybackEventKind::Started)));
    assert!(st.timeline_armed);
}

#[test]
fn position_changes_are_not_forwarded() {
    assert!(!is_interesting(PlaybackEventKind::PositionChanged));
    assert!(!is_interesting(PlaybackEventKind::BufferedRangesChanged));
    assert!(is_interesting(PlaybackEventKind::SeekingChanged));
}

#[test]
fn stopped_playback_projects_to_no_activity() {
    let mut st = State::default();
    let mut ev = event(PlaybackEventKind::MetadataChanged);
    ev.metadata = meta("abc", "Title");
    apply(&mut st, &ev);
    st.snapshot.phase = PlaybackPhase::Stopped;
    assert!(project_state(&st).is_none());
}

#[test]
fn only_numeric_application_ids_are_accepted() {
    assert!(is_valid_application_id("1533503787145363616"));
    for bad in [
        "",
        "not-an-id",
        "1533503787145363616 ",
        "https://discord.com/app/123",
        "Jellium",
    ] {
        assert!(
            !is_valid_application_id(bad),
            "should have rejected {bad:?}"
        );
    }
}

#[test]
fn backoff_grows_and_caps() {
    let now = Instant::from_nanos(1_000);
    let mut b = Backoff::new(now);
    assert!(b.due(now));
    for _ in 0..20 {
        b.fail(now);
    }
    assert_eq!(b.delay.nanos, RECONNECT_MAX);
    b.reset();
    assert_eq!(b.delay.nanos, RECONNECT_MIN);
}

#[test]
fn each_failure_doubles_the_wait() {
    let now = Instant::from_nanos(0);
    let mut b = Backoff::new(now);
    let mut waits = Vec::new();
    for _ in 0..6 {
        b.fail(now);
        waits.push(b.next_attempt.nanos / 1_000_000_000);
    }
    assert_eq!(waits, vec![5, 10, 20, 40, 60, 60]);
    assert!(!b.due(Instant::from_nanos(59_999_999_999)));
    assert!(b.due(Instant::from_nanos(60_000_000_000)));
}

#[test]
fn an_application_id_is_trimmed_and_checked() {
    assert_eq!(resolve_application_id("  123 \n"), "123");
    assert_eq!(resolve_application_id("12x"), "");
    assert_eq!(resolve_application_id("   "), "");
    assert_eq!(start(true, " 77 ", false).as_deref(), Some("77"));
    assert_eq!(start(false, "77", false), None);
    assert_eq!(start(true, "", false), None);
    assert_eq!(start(true, "77", true), None);
}

const SEC: u64 = 1_000_000_000;

fn at(seconds: u64) -> Instant {
    Instant::from_nanos(seconds * SEC)
}

fn playing(title: &str) -> PlaybackEvent {
    let mut ev = event(PlaybackEventKind::MetadataChanged);
    ev.metadata = meta(title, title);
    ev
}

fn push(p: &mut Presence, now: Instant) -> Option<Option<Activity>> {
    let (card, _nonce) = p.next_push(now)?;
    let sent = card.clone();
    p.on_sent(now, card, true);
    Some(sent)
}

#[test]
fn a_new_connection_gets_the_card_at_once() {
    let mut p = Presence::new(at(100));
    assert!(p.begin_turn(at(100), false));
    p.on_connect(at(100), true);
    p.on_event(&playing("First"));
    let card = match push(&mut p, at(100)) {
        Some(Some(card)) => card,
        other => panic!("{other:?}"),
    };
    assert_eq!(card.details, "First");
}

#[test]
fn changes_within_the_interval_wait_for_it() {
    let mut p = Presence::new(at(100));
    assert!(p.begin_turn(at(100), false));
    p.on_connect(at(100), true);
    p.on_event(&playing("First"));
    assert!(push(&mut p, at(100)).is_some());
    p.on_event(&playing("Second"));
    assert!(!p.begin_turn(at(101), true));
    assert!(push(&mut p, at(101)).is_none());
    let later = Instant::from_nanos(100 * SEC + MIN_PUSH_INTERVAL);
    assert!(!p.begin_turn(later, true));
    let card = match push(&mut p, later) {
        Some(Some(card)) => card,
        other => panic!("{other:?}"),
    };
    assert_eq!(card.details, "Second");
}

#[test]
fn an_unchanged_card_is_not_sent_again() {
    let mut p = Presence::new(at(100));
    assert!(p.begin_turn(at(100), false));
    p.on_connect(at(100), true);
    p.on_event(&playing("First"));
    assert!(push(&mut p, at(100)).is_some());
    let later = Instant::from_nanos(100 * SEC + WATCHDOG);
    assert!(!p.begin_turn(later, true));
    assert!(push(&mut p, later).is_none());
}

#[test]
fn a_lost_connection_is_made_again_after_the_backoff() {
    let mut p = Presence::new(at(100));
    assert!(p.begin_turn(at(100), false));
    p.on_connect(at(100), true);
    p.on_event(&playing("First"));
    assert!(push(&mut p, at(100)).is_some());
    assert_eq!(p.farewell(), Some(2));
    assert!(!p.begin_turn(at(110), false));
    assert_eq!(p.farewell(), None);
    assert!(push(&mut p, at(110)).is_none());
    assert!(!p.begin_turn(at(114), false));
    assert!(p.begin_turn(at(115), false));
    p.on_connect(at(115), true);
    match push(&mut p, at(115)) {
        Some(Some(card)) => assert_eq!(card.details, "First"),
        other => panic!("{other:?}"),
    }
}

#[test]
fn a_failed_send_is_not_remembered() {
    let mut p = Presence::new(at(100));
    assert!(p.begin_turn(at(100), false));
    p.on_connect(at(100), true);
    p.on_event(&playing("First"));
    let (card, nonce) = match p.next_push(at(100)) {
        Some(next) => next,
        None => panic!("a card is due"),
    };
    assert_eq!(nonce, 1);
    p.on_sent(at(100), card, false);
    p.on_event(&playing("First"));
    assert!(p.next_push(at(100)).is_some());
}
