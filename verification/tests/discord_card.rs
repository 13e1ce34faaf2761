use jellium::discord::activity::{to_json, WallClock};
use jellium::discord::projection::{
    clamp_text, format_hms, is_sane_id, project, season_episode, timecode_text, Activity, Button,
    ProjectInput, Timeline, ASSET_LOGO, ASSET_PAUSE, MAX_BUTTONS, TEXT_MAX_CHARS, TYPE_LISTENING,
    TYPE_WATCHING,
};
use jellium::playback::{ItemKind, MediaMetadata, MediaType, PlaybackPhase, Rate};
use serde_json::Value;

fn rate(r: f64) -> Rate {
    Rate::from_bits(r.to_bits())
}

/// Media time as wall-clock time at a playback rate, in milliseconds.
fn wall_ms(us: i64, rate: Rate) -> i64 {
    let r = f64::from_bits(rate.bits);
    let r = if r > 0.0 { r } else { 1.0 };
    let ms = us as f64 / 1000.0 / r;
    if ms.is_finite() {
        ms as i64
    } else {
        0
    }
}

fn card_json(a: &Activity, now_ms: i64) -> Value {
    let clock = match a.timeline {
        Some(t) => WallClock {
            elapsed_ms: wall_ms(t.position_us, t.rate),
            length_ms: wall_ms(t.duration_us, t.rate),
        },
        None => WallClock {
            elapsed_ms: 0,
            length_ms: 0,
        },
    };
    to_json(a, now_ms, clock)
}

fn activity(timeline: Option<Timeline>) -> Activity {
    Activity {
        activity_type: 3,
        name: "Frieren".into(),
        details: "Frieren".into(),
        state: "S1E12".into(),
        large_image: ASSET_LOGO.into(),
        large_text: "Frieren".into(),
        small_image: ASSET_PAUSE,
        small_text: "1:00 / 23:20".into(),
        timeline,
        buttons: Vec::new(),
    }
}

#[test]
fn the_activity_name_carries_the_title() {
    let v = card_json(&activity(None), 0);
    assert_eq!(v.get("name").and_then(Value::as_str), Some("Frieren"));
}

#[test]
fn the_primary_link_makes_the_title_and_poster_clickable() {
    let mut a = activity(None);
    a.buttons = vec![Button {
        label: "IMDb",
        url: "https://www.imdb.com/title/tt15469038/".into(),
    }];
    let v = card_json(&a, 0);
    let url = Some("https://www.imdb.com/title/tt15469038/");
    assert_eq!(v.get("details_url").and_then(Value::as_str), url);
    assert_eq!(
        v.get("assets")
            .and_then(|a| a.get("large_url"))
            .and_then(Value::as_str),
        url
    );
}

#[test]
fn without_a_link_no_url_fields_are_sent() {
    let v = card_json(&activity(None), 0);
    assert!(v.get("details_url").is_none());
    assert!(v.get("assets").and_then(|a| a.get("large_url")).is_none());
}

#[test]
fn no_timeline_means_no_timestamps() {
    let v = card_json(&activity(None), 1_000_000);
    assert!(v.get("timestamps").is_none());
}

#[test]
fn start_is_now_minus_elapsed() {
    let v = card_json(
        &activity(Some(Timeline {
            position_us: 60_000_000,
            duration_us: 1_400_000_000,
            rate: rate(1.0),
        })),
        1_000_000,
    );
    let ts = match v.get("timestamps") {
        Some(t) => t,
        None => unreachable!("timestamps"),
    };
    assert_eq!(ts.get("start").and_then(Value::as_i64), Some(940_000));
    assert_eq!(ts.get("end").and_then(Value::as_i64), Some(2_340_000));
}

#[test]
fn double_speed_halves_the_remaining_wall_clock() {
    let v = card_json(
        &activity(Some(Timeline {
            position_us: 0,
            duration_us: 3_600_000_000,
            rate: rate(2.0),
        })),
        0,
    );
    let ts = match v.get("timestamps") {
        Some(t) => t,
        None => unreachable!("timestamps"),
    };
    assert_eq!(ts.get("end").and_then(Value::as_i64), Some(1_800_000));
}

#[test]
fn zero_rate_cannot_produce_a_nan() {
    let v = card_json(
        &activity(Some(Timeline {
            position_us: 60_000_000,
            duration_us: 0,
            rate: rate(0.0),
        })),
        0,
    );
    let ts = match v.get("timestamps") {
        Some(t) => t,
        None => unreachable!("timestamps"),
    };
    assert_eq!(ts.get("start").and_then(Value::as_i64), Some(-60_000));
}

#[test]
fn buttons_serialise_as_label_url_pairs() {
    let mut a = activity(None);
    a.buttons = vec![Button {
        label: "IMDb",
        url: "https://www.imdb.com/title/tt15469038/".into(),
    }];
    let v = card_json(&a, 0);
    let arr = match v.get("buttons").and_then(Value::as_array) {
        Some(b) => b,
        None => unreachable!("buttons"),
    };
    assert_eq!(arr.len(), 1);
    assert_eq!(arr[0].get("label").and_then(Value::as_str), Some("IMDb"));
    assert_eq!(
        arr[0].get("url").and_then(Value::as_str),
        Some("https://www.imdb.com/title/tt15469038/")
    );
}

#[test]
fn an_empty_badge_is_absent_from_the_assets() {
    let mut a = activity(None);
    a.small_image = "";
    a.small_text = String::new();
    let assets = match card_json(&a, 0).get("assets").cloned() {
        Some(v) => v,
        None => unreachable!("assets"),
    };
    assert!(assets.get("small_image").is_none());
    assert!(assets.get("small_text").is_none());
    assert!(assets.get("large_image").is_some());
}

#[test]
fn absent_buttons_are_omitted_entirely() {
    assert!(card_json(&activity(None), 0).get("buttons").is_none());
}

#[test]
fn empty_text_fields_are_omitted() {
    let mut a = activity(None);
    a.state = String::new();
    let v = card_json(&a, 0);
    assert!(v.get("state").is_none());
    assert!(v.get("details").is_some());
}

#[test]
fn live_stream_has_a_start_but_no_end() {
    let v = card_json(
        &activity(Some(Timeline {
            position_us: 5_000_000,
            duration_us: 0,
            rate: rate(1.0),
        })),
        100_000,
    );
    let ts = match v.get("timestamps") {
        Some(t) => t,
        None => unreachable!("timestamps"),
    };
    assert_eq!(ts.get("start").and_then(Value::as_i64), Some(95_000));
    assert!(ts.get("end").is_none());
}

#[test]
fn a_whole_card_renders_to_one_document() {
    let mut a = activity(Some(Timeline {
        position_us: 1_000_000,
        duration_us: 2_000_000,
        rate: rate(1.0),
    }));
    a.buttons = vec![Button {
        label: "AniList",
        url: "https://anilist.co/anime/154587".into(),
    }];
    let parsed: Value = match serde_json::from_str(&card_json(&a, 5_000).to_string()) {
        Ok(v) => v,
        Err(e) => panic!("{e}"),
    };
    assert_eq!(parsed.get("type").and_then(Value::as_i64), Some(3));
    assert_eq!(parsed.get("details").and_then(Value::as_str), Some("Frieren"));
    assert_eq!(parsed.get("state").and_then(Value::as_str), Some("S1E12"));
    assert_eq!(parsed["assets"]["large_image"], "logo");
    assert_eq!(parsed["assets"]["large_text"], "Frieren");
    assert_eq!(parsed["assets"]["small_image"], "pause");
    assert_eq!(parsed["assets"]["small_text"], "1:00 / 23:20");
    assert_eq!(parsed["timestamps"]["start"], 4_000);
    assert_eq!(parsed["timestamps"]["end"], 6_000);
    assert_eq!(parsed["buttons"][0]["label"], "AniList");
}

fn projected(i: &ProjectInput<'_>) -> Activity {
    match project(i) {
        Some(a) => a,
        None => unreachable!("expected an activity"),
    }
}

fn episode() -> MediaMetadata {
    MediaMetadata {
        id: "abc".into(),
        title: "The Land Where Souls Rest".into(),
        artist: "Frieren".into(),
        album: "Season 1".into(),
        track_number: 12,
        season_number: 1,
        year: 2023,
        duration_us: 1_400_000_000,
        art_url: String::new(),
        art_data_uri: String::new(),
        media_type: MediaType::Video,
        kind: ItemKind::Episode,
        imdb_id: String::new(),
        tmdb_id: String::new(),
        anilist_id: String::new(),
    }
}

fn input(meta: &MediaMetadata, phase: PlaybackPhase) -> ProjectInput<'_> {
    ProjectInput {
        phase,
        seeking: false,
        buffering: false,
        rate: rate(1.0),
        position_us: 60_000_000,
        duration_us: meta.duration_us,
        meta,
        timeline_armed: true,
    }
}

#[test]
fn stopped_clears_presence() {
    let m = episode();
    assert!(project(&input(&m, PlaybackPhase::Stopped)).is_none());
}

#[test]
fn untitled_clears_presence() {
    let mut m = episode();
    m.title = String::new();
    assert!(project(&input(&m, PlaybackPhase::Playing)).is_none());
}

#[test]
fn episode_shows_series_then_numbering() {
    let m = episode();
    let a = projected(&input(&m, PlaybackPhase::Playing));
    assert_eq!(a.details, "Frieren");
    assert_eq!(a.state, "S1E12 · The Land Where Souls Rest");
    assert_eq!(a.activity_type, TYPE_WATCHING);
}

#[test]
fn episode_without_series_leads_with_title() {
    let mut m = episode();
    m.artist = String::new();
    let a = projected(&input(&m, PlaybackPhase::Playing));
    assert_eq!(a.details, "The Land Where Souls Rest");
    assert_eq!(a.state, "S1E12");
}

#[test]
fn movie_shows_title_and_year() {
    let mut m = episode();
    m.kind = ItemKind::Movie;
    m.title = "Dune".into();
    m.year = 2021;
    let a = projected(&input(&m, PlaybackPhase::Playing));
    assert_eq!(a.details, "Dune");
    assert_eq!(a.state, "2021");
}

#[test]
fn music_uses_listening_type() {
    let mut m = episode();
    m.kind = ItemKind::Music;
    let a = projected(&input(&m, PlaybackPhase::Playing));
    assert_eq!(a.activity_type, TYPE_LISTENING);
}

#[test]
fn playing_arms_the_bar() {
    let m = episode();
    let a = projected(&input(&m, PlaybackPhase::Playing));
    assert_eq!(
        a.timeline,
        Some(Timeline {
            position_us: 60_000_000,
            duration_us: 1_400_000_000,
            rate: rate(1.0),
        })
    );
}

#[test]
fn paused_drops_the_bar_but_keeps_the_card() {
    let m = episode();
    let a = projected(&input(&m, PlaybackPhase::Paused));
    assert!(a.timeline.is_none());
    assert_eq!(a.small_image, ASSET_PAUSE);
    assert!(a.small_text.starts_with("Paused · "));
}

#[test]
fn playing_shows_no_badge_at_all() {
    let m = episode();
    let a = projected(&input(&m, PlaybackPhase::Playing));
    assert_eq!(a.small_image, "");
    assert_eq!(a.small_text, "");
}

#[test]
fn only_paused_gets_a_badge() {
    let m = episode();
    for phase in [PlaybackPhase::Playing, PlaybackPhase::Starting] {
        assert_eq!(projected(&input(&m, phase)).small_image, "", "{phase:?}");
    }
    assert_eq!(
        projected(&input(&m, PlaybackPhase::Paused)).small_image,
        ASSET_PAUSE
    );
}

#[test]
fn starting_drops_the_bar() {
    let m = episode();
    let a = projected(&input(&m, PlaybackPhase::Starting));
    assert!(a.timeline.is_none());
}

#[test]
fn seeking_drops_the_bar() {
    let m = episode();
    let mut i = input(&m, PlaybackPhase::Playing);
    i.seeking = true;
    assert!(projected(&i).timeline.is_none());
}

#[test]
fn buffering_drops_the_bar() {
    let m = episode();
    let mut i = input(&m, PlaybackPhase::Playing);
    i.buffering = true;
    assert!(projected(&i).timeline.is_none());
}

#[test]
fn zero_rate_drops_the_bar() {
    let m = episode();
    let mut i = input(&m, PlaybackPhase::Playing);
    i.rate = rate(0.0);
    assert!(projected(&i).timeline.is_none());
}

#[test]
fn unarmed_timeline_drops_the_bar() {
    let m = episode();
    let mut i = input(&m, PlaybackPhase::Playing);
    i.timeline_armed = false;
    assert!(projected(&i).timeline.is_none());
}

#[test]
fn multibyte_titles_truncate_on_char_boundaries() {
    let mut m = episode();
    m.artist = "葬送のフリーレン".repeat(40);
    let a = projected(&input(&m, PlaybackPhase::Playing));
    assert_eq!(a.details.chars().count(), TEXT_MAX_CHARS);
}

#[test]
fn single_char_text_is_dropped() {
    let mut m = episode();
    m.kind = ItemKind::Movie;
    m.title = "Z".into();
    m.year = 0;
    let a = projected(&input(&m, PlaybackPhase::Playing));
    assert_eq!(a.details, "");
    assert_eq!(a.state, "");
}

#[test]
fn art_url_overrides_the_static_asset() {
    let mut m = episode();
    m.art_url = "https://jf.example/Items/1/Images/Primary".into();
    let a = projected(&input(&m, PlaybackPhase::Playing));
    assert_eq!(a.large_image, m.art_url);
}

#[test]
fn missing_art_falls_back_to_the_logo() {
    let m = episode();
    let a = projected(&input(&m, PlaybackPhase::Playing));
    assert_eq!(a.large_image, ASSET_LOGO);
}

#[test]
fn imdb_and_anilist_win_over_tmdb_when_all_present() {
    let mut m = episode();
    m.imdb_id = "tt15469038".into();
    m.anilist_id = "154587".into();
    m.tmdb_id = "209867".into();
    let a = projected(&input(&m, PlaybackPhase::Playing));
    assert_eq!(a.buttons.len(), MAX_BUTTONS);
    assert_eq!(a.buttons[0].label, "IMDb");
    assert_eq!(a.buttons[0].url, "https://www.imdb.com/title/tt15469038/");
    assert_eq!(a.buttons[1].label, "AniList");
    assert_eq!(a.buttons[1].url, "https://anilist.co/anime/154587");
}

#[test]
fn tmdb_path_follows_the_item_kind() {
    let mut m = episode();
    m.tmdb_id = "693134".into();
    let ep = projected(&input(&m, PlaybackPhase::Playing));
    assert_eq!(ep.buttons[0].url, "https://www.themoviedb.org/tv/693134");

    m.kind = ItemKind::Movie;
    let film = projected(&input(&m, PlaybackPhase::Playing));
    assert_eq!(
        film.buttons[0].url,
        "https://www.themoviedb.org/movie/693134"
    );
}

#[test]
fn no_provider_ids_means_no_buttons() {
    let m = episode();
    assert!(projected(&input(&m, PlaybackPhase::Playing))
        .buttons
        .is_empty());
}

#[test]
fn hostile_provider_ids_are_rejected() {
    for bad in [
        "//evil.example",
        "tt1/../../x",
        "tt1?q=a",
        "https://jellyfin.internal/x",
        "tt1 tt2",
        "",
    ] {
        let mut m = episode();
        m.imdb_id = bad.into();
        assert!(
            projected(&input(&m, PlaybackPhase::Playing))
                .buttons
                .is_empty(),
            "should have rejected {bad:?}"
        );
    }
}

#[test]
fn buttons_never_reference_the_jellyfin_server() {
    let mut m = episode();
    m.art_url = "https://jellyfin.example.internal/Items/1/Images/Primary".into();
    m.imdb_id = "tt15469038".into();
    m.tmdb_id = "209867".into();
    let a = projected(&input(&m, PlaybackPhase::Playing));
    assert!(!a.buttons.is_empty());
    for b in &a.buttons {
        assert!(
            b.url.starts_with("https://www.imdb.com/")
                || b.url.starts_with("https://anilist.co/")
                || b.url.starts_with("https://www.themoviedb.org/"),
            "unexpected host in {}",
            b.url
        );
    }
}

#[test]
fn timecode_uses_hours_only_when_needed() {
    assert_eq!(format_hms(0), "0:00");
    assert_eq!(format_hms(62_000_000), "1:02");
    assert_eq!(format_hms(3_723_000_000), "1:02:03");
}

#[test]
fn live_streams_show_elapsed_only() {
    let mut m = episode();
    m.duration_us = 0;
    let mut i = input(&m, PlaybackPhase::Paused);
    i.duration_us = 0;
    let a = projected(&i);
    assert!(!a.small_text.contains('/'));
}

#[test]
fn a_paused_card_tells_where_it_stands() {
    let m = episode();
    let a = projected(&input(&m, PlaybackPhase::Paused));
    assert_eq!(a.small_text, "Paused · 1:00 / 23:20");
    assert_eq!(timecode_text(60_000_000, 1_400_000_000), "1:00 / 23:20");
    assert_eq!(timecode_text(60_000_000, 0), "1:00");
}

#[test]
fn numbering_needs_its_parts() {
    assert_eq!(season_episode(1, 12), "S1E12");
    assert_eq!(season_episode(0, 12), "E12");
    assert_eq!(season_episode(3, 0), "S3");
    assert_eq!(season_episode(0, 0), "");
}

#[test]
fn card_texts_keep_within_their_limits() {
    let long = "x".repeat(200);
    assert_eq!(clamp_text(&long).chars().count(), 128);
    assert_eq!(clamp_text("  ab  "), "ab");
    assert_eq!(clamp_text(" a "), "");
    assert_eq!(clamp_text("\u{3000}\u{a0}"), "");
}

#[test]
fn identifiers_are_short_and_plain() {
    assert!(is_sane_id("tt15469038"));
    assert!(is_sane_id(&"a".repeat(32)));
    assert!(!is_sane_id(&"a".repeat(33)));
    assert!(!is_sane_id("é"));
}

#[test]
fn negative_positions_count_as_the_start() {
    let m = episode();
    let mut i = input(&m, PlaybackPhase::Playing);
    i.position_us = -5;
    assert_eq!(
        projected(&i).timeline.map(|t| t.position_us),
        Some(0)
    );
    assert_eq!(format_hms(-1), "0:00");
}

#[test]
fn a_rate_that_is_no_number_drops_the_bar() {
    let m = episode();
    let mut i = input(&m, PlaybackPhase::Playing);
    for r in [f64::NAN, f64::NEG_INFINITY, -1.0, -0.0] {
        i.rate = rate(r);
        assert!(projected(&i).timeline.is_none(), "{r}");
    }
    i.rate = rate(f64::MIN_POSITIVE);
    assert!(projected(&i).timeline.is_some());
}

#[test]
fn positive_rates_are_told_from_their_bits() {
    for r in [
        0.0,
        -0.0,
        1.0,
        -1.0,
        0.25,
        f64::MAX,
        f64::MIN,
        f64::INFINITY,
        f64::NEG_INFINITY,
        f64::NAN,
        -f64::NAN,
        5e-324,
        -5e-324,
    ] {
        assert_eq!(rate(r).is_positive(), r > 0.0, "{r}");
    }
}

#[test]
fn rates_compare_as_numbers() {
    let all = [0.0, -0.0, 1.0, -1.0, f64::INFINITY, f64::NAN, -f64::NAN, f64::MIN_POSITIVE];
    for a in all {
        for b in all {
            assert_eq!(rate(a) == rate(b), a == b, "{a} {b}");
            let timeline = |r: f64| Timeline {
                position_us: 1,
                duration_us: 2,
                rate: rate(r),
            };
            assert_eq!(
                activity(Some(timeline(a))) == activity(Some(timeline(b))),
                a == b,
                "{a} {b}"
            );
        }
    }
}
