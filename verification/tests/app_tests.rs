use std::collections::HashMap;

use dota2_tui::app::{
    avatar_map_from_entries, avatar_result, build_asset_map, handle_message, load_avatar_map,
    push_recent_search, recent_from_log, App, InputMode, Message, SearchEntry, SearchPayload,
};
use dota2_tui::i18n::{I18n, Language};
use dota2_tui::models::{MatchDetail, MatchPlayer, PlayerMatch, PlayerProfile, PlayerResponse};

fn english() -> I18n {
    I18n::new(Language::En)
}

fn a_match(match_id: u64) -> PlayerMatch {
    PlayerMatch {
        match_id,
        player_slot: 0,
        radiant_win: true,
        duration: 1800,
        start_time: Some(0),
        hero_id: 1,
        game_mode: Some(22),
        kills: Some(1),
        deaths: Some(2),
        assists: Some(3),
    }
}

fn a_player(account_id: Option<u32>) -> MatchPlayer {
    MatchPlayer {
        account_id,
        personaname: None,
        hero_id: Some(1),
        player_slot: Some(0),
        item_0: None,
        item_1: None,
        item_2: None,
        item_3: None,
        item_4: None,
        item_5: None,
        kills: None,
        deaths: None,
        assists: None,
        gold_per_min: None,
        xp_per_min: None,
        net_worth: None,
    }
}

fn a_profile(name: Option<&str>, full: Option<&str>, medium: Option<&str>, small: Option<&str>) -> PlayerResponse {
    PlayerResponse {
        profile: Some(PlayerProfile {
            personaname: name.map(str::to_string),
            steamid: Some("76561198095930120".to_string()),
            avatar: small.map(str::to_string),
            avatarmedium: medium.map(str::to_string),
            avatarfull: full.map(str::to_string),
        }),
        mmr_estimate: None,
    }
}

fn search(account_id: u32, profile: Option<PlayerResponse>, matches: Vec<PlayerMatch>) -> SearchPayload {
    SearchPayload { account_id, profile, matches, profile_error: None, match_error: None }
}

#[test]
fn new_app_starts_empty() {
    let app = App::new(5_000);
    assert_eq!(app.input, "");
    assert_eq!(app.input_mode, InputMode::Normal);
    assert!(!app.should_quit);
    assert_eq!(app.status, "");
    assert_eq!(app.account_id, None);
    assert!(app.profile.is_none());
    assert!(app.matches.is_empty());
    assert_eq!(app.match_state.selected(), Some(0));
    assert_eq!(app.image_cache.capacity(), 256);
    assert_eq!(app.image_cache.len(), 0);
    assert_eq!(app.banner_shimmer, 24);
    assert_eq!(app.last_nav, 4_000);
    assert_eq!(App::new(999).last_nav, 999);
    assert_eq!(app.net_total, 0);
    assert_eq!(app.net_last_ms, None);
    assert!(app.image_inflight.is_empty());
}

#[test]
fn heroes_loaded_sets_names_and_status() {
    let mut app = App::new(0);
    let mut heroes = HashMap::new();
    heroes.insert(1, "Anti-Mage".to_string());
    let out = handle_message(Message::HeroesLoaded(Ok(heroes)), &mut app, &english(), Vec::new());
    assert_eq!(app.heroes.get(&1).map(String::as_str), Some("Anti-Mage"));
    assert_eq!(app.status, "Hero data loaded");
    assert!(out.avatar_request.is_none() && !out.save_avatars && out.recent.is_none());
    assert_eq!(app.hero_name(1, &english()), "Anti-Mage");
    assert_eq!(app.hero_name(2, &english()), "Unknown");
    assert_eq!(app.hero_name(2, &I18n::new(Language::Zh)), "未知");
}

#[test]
fn failed_tables_only_change_the_status() {
    let mut app = App::new(0);
    let zh = I18n::new(Language::Zh);
    handle_message(Message::HeroesLoaded(Err("boom".to_string())), &mut app, &zh, Vec::new());
    assert_eq!(app.status, "英雄数据加载失败: boom");
    handle_message(Message::HeroImagesLoaded(Err("x".to_string())), &mut app, &english(), Vec::new());
    assert_eq!(app.status, "Hero load failed: x");
    handle_message(Message::ItemImagesLoaded(Err("y".to_string())), &mut app, &english(), Vec::new());
    assert_eq!(app.status, "Hero load failed: y");
    assert!(app.heroes.is_empty() && app.hero_images.is_empty() && app.item_images.is_empty());
}

#[test]
fn image_tables_are_taken_over_without_touching_the_status() {
    let mut app = App::new(0);
    app.set_status("before".to_string());
    let mut heroes = HashMap::new();
    heroes.insert(7, "https://cdn/h.png".to_string());
    let mut items = HashMap::new();
    items.insert(9, "https://cdn/i.png".to_string());
    handle_message(Message::HeroImagesLoaded(Ok(heroes)), &mut app, &english(), Vec::new());
    handle_message(Message::ItemImagesLoaded(Ok(items)), &mut app, &english(), Vec::new());
    assert_eq!(app.hero_images.get(&7).map(String::as_str), Some("https://cdn/h.png"));
    assert_eq!(app.item_images.get(&9).map(String::as_str), Some("https://cdn/i.png"));
    assert_eq!(app.status, "before");
}

#[test]
fn search_with_matches_selects_the_first() {
    let mut app = App::new(0);
    app.loading = true;
    let profile = a_profile(Some("Dendi"), Some("https://a/full.jpg"), Some("https://a/m.jpg"), None);
    let payload = search(135664392, Some(profile), vec![a_match(10), a_match(11)]);
    let out = handle_message(Message::SearchLoaded(Ok(payload)), &mut app, &english(), Vec::new());
    assert!(!app.loading);
    assert_eq!(app.account_id, Some(135664392));
    let stored = app.profile.as_ref().and_then(|p| p.profile.as_ref()).unwrap();
    assert_eq!(stored.personaname.as_deref(), Some("Dendi"));
    assert_eq!(stored.steamid.as_deref(), Some("76561198095930120"));
    assert_eq!(app.matches.len(), 2);
    assert_eq!(app.match_state.selected(), Some(0));
    assert_eq!(app.status, "Matches loaded. Use j/k and Enter for details");
    assert_eq!(app.avatar_url.as_deref(), Some("https://a/full.jpg"));
    assert_eq!(out.avatar_request.as_deref(), Some("https://a/full.jpg"));
    assert!(out.save_avatars);
    assert_eq!(app.player_avatars.get(&135664392).map(String::as_str), Some("https://a/full.jpg"));
    let logged = out.recent.unwrap();
    assert_eq!(logged.account_id, 135664392);
    assert_eq!(logged.personaname, "Dendi");
    assert_eq!(logged.avatar_url.as_deref(), Some("https://a/full.jpg"));
    assert_eq!(app.recent_searches.len(), 1);
    assert_eq!(app.recent_searches[0].personaname, "Dendi");
    assert!(!app.avatar_loading);
}

#[test]
fn search_without_matches_clears_the_cursor() {
    let mut app = App::new(0);
    let payload = search(135664392, Some(a_profile(Some("Dendi"), None, None, None)), Vec::new());
    let out = handle_message(Message::SearchLoaded(Ok(payload)), &mut app, &english(), Vec::new());
    assert_eq!(app.match_state.selected(), None);
    assert_eq!(app.status, "No matches found");
    assert!(app.matches.is_empty());
    assert_eq!(app.avatar_url, None);
    assert!(out.avatar_request.is_none());
    assert!(!out.save_avatars);
    assert!(app.selected_match().is_none());
}

#[test]
fn search_carries_both_errors_and_shows_the_profile_error() {
    let mut app = App::new(0);
    let payload = SearchPayload::from_results(
        7,
        Err("profile down".to_string()),
        Err("matches down".to_string()),
    );
    assert_eq!(payload.account_id, 7);
    assert!(payload.profile.is_none());
    assert!(payload.matches.is_empty());
    assert_eq!(payload.profile_error.as_deref(), Some("profile down"));
    assert_eq!(payload.match_error.as_deref(), Some("matches down"));
    let out = handle_message(Message::SearchLoaded(Ok(payload)), &mut app, &english(), Vec::new());
    assert_eq!(app.status, "Profile load failed: profile down");
    assert_eq!(app.match_state.selected(), None);
    assert_eq!(app.account_id, Some(7));
    assert!(out.recent.is_none());
    assert!(app.recent_searches.is_empty());
}

#[test]
fn search_with_only_a_match_error_keeps_the_profile() {
    let mut app = App::new(0);
    let payload = SearchPayload::from_results(
        7,
        Ok(a_profile(None, None, None, Some("https://a/s.jpg"))),
        Err("matches down".to_string()),
    );
    assert!(payload.profile_error.is_none());
    let out = handle_message(Message::SearchLoaded(Ok(payload)), &mut app, &english(), Vec::new());
    assert_eq!(app.status, "Matches load failed: matches down");
    assert_eq!(app.match_state.selected(), None);
    assert_eq!(app.avatar_url.as_deref(), Some("https://a/s.jpg"));
    assert_eq!(out.recent.unwrap().personaname, "Unknown");
}

#[test]
fn search_falls_back_to_the_known_avatar() {
    let mut app = App::new(0);
    app.player_avatars.insert(7, "https://known/7.jpg".to_string());
    let payload = search(7, Some(a_profile(Some("x"), None, None, None)), vec![a_match(1)]);
    let out = handle_message(Message::SearchLoaded(Ok(payload)), &mut app, &english(), Vec::new());
    assert_eq!(app.avatar_url.as_deref(), Some("https://known/7.jpg"));
    assert_eq!(out.avatar_request.as_deref(), Some("https://known/7.jpg"));
    assert!(out.save_avatars);
    assert_eq!(out.recent.unwrap().avatar_url, None);
}

#[test]
fn search_prefers_medium_over_small_avatar() {
    let mut app = App::new(0);
    let payload = search(7, Some(a_profile(Some("x"), None, Some("m"), Some("s"))), Vec::new());
    handle_message(Message::SearchLoaded(Ok(payload)), &mut app, &english(), Vec::new());
    assert_eq!(app.avatar_url.as_deref(), Some("m"));
}

#[test]
fn failed_search_leaves_the_player_alone() {
    let mut app = App::new(0);
    app.loading = true;
    app.account_id = Some(3);
    app.matches.push(a_match(1));
    let out = handle_message(Message::SearchLoaded(Err("no net".to_string())), &mut app, &english(), Vec::new());
    assert!(!app.loading);
    assert_eq!(app.status, "Search failed: no net");
    assert_eq!(app.account_id, Some(3));
    assert_eq!(app.matches.len(), 1);
    assert_eq!(app.match_state.selected(), Some(0));
    assert!(out.avatar_request.is_none());
}

#[test]
fn match_detail_asks_for_missing_avatars_once() {
    let mut app = App::new(0);
    app.detail_loading = true;
    app.player_avatars.insert(1, "known".to_string());
    app.player_avatar_requests.insert(2);
    let detail = MatchDetail {
        players: vec![
            a_player(Some(1)),
            a_player(Some(2)),
            a_player(Some(3)),
            a_player(None),
            a_player(Some(4)),
            a_player(Some(3)),
            a_player(Some(5)),
        ],
    };
    let disk = vec![(5u32, "from disk".to_string()), (1u32, "ignored".to_string())];
    let out = handle_message(Message::MatchDetailLoaded(Ok(detail)), &mut app, &english(), disk);
    assert!(!app.detail_loading);
    assert_eq!(app.status, "Match details loaded");
    assert_eq!(app.match_detail.as_ref().map(|d| d.players.len()), Some(7));
    assert_eq!(app.pending_player_avatar_ids, vec![3, 4]);
    assert!(app.player_avatar_requests.contains(&2));
    assert!(app.player_avatar_requests.contains(&3));
    assert!(app.player_avatar_requests.contains(&4));
    assert_eq!(app.player_avatar_requests.len(), 3);
    assert_eq!(app.player_avatars.get(&1).map(String::as_str), Some("known"));
    assert_eq!(app.player_avatars.get(&5).map(String::as_str), Some("from disk"));
    assert!(!out.save_avatars && out.avatar_request.is_none() && out.recent.is_none());
    assert_eq!(app.take_pending_player_avatar_ids(), vec![3, 4]);
    assert!(app.pending_player_avatar_ids.is_empty());
}

#[test]
fn match_detail_with_nothing_missing_keeps_pending_ids() {
    let mut app = App::new(0);
    app.pending_player_avatar_ids = vec![9];
    app.player_avatars.insert(1, "known".to_string());
    let detail = MatchDetail { players: vec![a_player(Some(1)), a_player(None)] };
    handle_message(Message::MatchDetailLoaded(Ok(detail)), &mut app, &english(), Vec::new());
    assert_eq!(app.pending_player_avatar_ids, vec![9]);
    assert!(app.player_avatar_requests.is_empty());
}

#[test]
fn failed_match_detail_shows_the_error() {
    let mut app = App::new(0);
    app.detail_loading = true;
    handle_message(Message::MatchDetailLoaded(Err("gone".to_string())), &mut app, &english(), vec![(1, "x".to_string())]);
    assert!(!app.detail_loading);
    assert_eq!(app.status, "Match load failed: gone");
    assert!(app.match_detail.is_none());
    assert!(app.player_avatars.is_empty());
}

#[test]
fn image_loaded_is_cached_and_no_longer_in_flight() {
    let mut app = App::new(0);
    assert!(app.begin_image_fetch("https://a/1.png"));
    assert!(!app.begin_image_fetch("https://a/1.png"));
    assert!(app.begin_image_fetch("https://a/2.png"));
    let png = b"\x89PNG\r\n\x1a\nbody".to_vec();
    let msg = Message::ImageLoaded { url: "https://a/1.png".to_string(), result: Ok(png.clone()) };
    let out = handle_message(msg, &mut app, &english(), Vec::new());
    assert_eq!(app.image_cache.get("https://a/1.png"), Some(&png));
    assert_eq!(out.disk_picture, Some(("https://a/1.png".to_string(), png)));
    assert!(out.avatar_request.is_none() && !out.save_avatars && out.recent.is_none());
    assert!(!app.image_inflight.contains("https://a/1.png"));
    assert!(app.image_inflight.contains("https://a/2.png"));
    assert!(app.avatar_loading);
    let msg = Message::ImageLoaded { url: "https://a/2.png".to_string(), result: Err("404".to_string()) };
    let out = handle_message(msg, &mut app, &english(), Vec::new());
    assert_eq!(app.status, "Image load failed: 404");
    assert!(app.image_inflight.is_empty());
    assert!(!app.avatar_loading);
    assert!(app.image_cache.get("https://a/2.png").is_none());
    assert!(out.disk_picture.is_none());
}

#[test]
fn fetched_pictures_reach_both_caches_as_png() {
    let picture = image::RgbImage::from_fn(2, 2, |x, y| image::Rgb([x as u8 * 200, y as u8 * 200, 9]));
    let mut jpeg = Vec::new();
    image::DynamicImage::ImageRgb8(picture)
        .write_to(&mut std::io::Cursor::new(&mut jpeg), image::ImageOutputFormat::Jpeg(90))
        .unwrap();
    let mut app = App::new(0);
    app.begin_image_fetch("u");
    let msg = Message::ImageLoaded { url: "u".to_string(), result: Ok(jpeg.clone()) };
    let out = handle_message(msg, &mut app, &english(), Vec::new());
    let (address, written) = out.disk_picture.unwrap();
    assert_eq!(address, "u");
    assert!(written.starts_with(b"\x89PNG\r\n\x1a\n"));
    assert_ne!(written, jpeg);
    assert_eq!(app.image_cache.get("u"), Some(&written));
    assert!(app.image_inflight.is_empty());
}

#[test]
fn fetched_bytes_that_hold_no_picture_are_kept_nowhere() {
    let mut app = App::new(0);
    app.set_status("before".to_string());
    app.begin_image_fetch("u");
    let msg = Message::ImageLoaded { url: "u".to_string(), result: Ok(vec![1, 2, 3]) };
    let out = handle_message(msg, &mut app, &english(), Vec::new());
    assert!(out.disk_picture.is_none());
    assert!(app.image_cache.get("u").is_none());
    assert_eq!(app.image_cache.len(), 0);
    assert!(app.image_inflight.is_empty());
    assert!(!app.avatar_loading);
    assert_eq!(app.status, "before");
}

#[test]
fn image_cache_keeps_the_newest_pictures() {
    let mut app = App::new(0);
    for i in 0..300u32 {
        app.cache_image(format!("u{i}"), vec![(i % 256) as u8]);
    }
    assert_eq!(app.image_cache.len(), 256);
    assert!(!app.image_cache.contains_key("u0"));
    assert!(!app.image_cache.contains_key("u43"));
    assert!(app.image_cache.contains_key("u44"));
    assert!(app.image_cache.contains_key("u299"));
    assert_eq!(app.image_cache.key_at(0).map(String::as_str), Some("u299"));
    app.cache_image("u44".to_string(), vec![0]);
    assert_eq!(app.image_cache.len(), 256);
    assert_eq!(app.image_cache.key_at(0).map(String::as_str), Some("u44"));
    assert_eq!(app.image_cache.get("u44"), Some(&vec![0]));
}

#[test]
fn late_avatar_does_not_touch_the_displayed_avatar() {
    let mut app = App::new(0);
    let payload = search(10, Some(a_profile(Some("now"), Some("https://a/now.jpg"), None, None)), vec![a_match(1)]);
    handle_message(Message::SearchLoaded(Ok(payload)), &mut app, &english(), Vec::new());
    app.player_avatar_requests.insert(99);
    let msg = Message::PlayerAvatarLoaded { account_id: 99, result: Ok(Some("https://a/old.jpg".to_string())) };
    let out = handle_message(msg, &mut app, &english(), Vec::new());
    assert_eq!(app.avatar_url.as_deref(), Some("https://a/now.jpg"));
    assert_eq!(app.account_id, Some(10));
    assert_eq!(app.player_avatars.get(&99).map(String::as_str), Some("https://a/old.jpg"));
    assert!(!app.player_avatar_requests.contains(&99));
    assert!(out.save_avatars);
    assert!(out.avatar_request.is_none());
    let same = Message::PlayerAvatarLoaded { account_id: 10, result: Ok(Some("https://a/other.jpg".to_string())) };
    handle_message(same, &mut app, &english(), Vec::new());
    assert_eq!(app.avatar_url.as_deref(), Some("https://a/now.jpg"));
}

#[test]
fn avatar_without_address_or_with_error_only_clears_the_request() {
    let mut app = App::new(0);
    app.player_avatar_requests.insert(1);
    app.player_avatar_requests.insert(2);
    let out = handle_message(Message::PlayerAvatarLoaded { account_id: 1, result: Ok(None) }, &mut app, &english(), Vec::new());
    assert!(!out.save_avatars);
    let out = handle_message(
        Message::PlayerAvatarLoaded { account_id: 2, result: Err("x".to_string()) },
        &mut app,
        &english(),
        Vec::new(),
    );
    assert!(!out.save_avatars);
    assert!(app.player_avatar_requests.is_empty());
    assert!(app.player_avatars.is_empty());
    assert_eq!(app.status, "");
}

#[test]
fn net_event_counts_progress() {
    let mut app = App::new(0);
    app.count_request();
    app.count_request();
    assert_eq!((app.net_total, app.net_inflight, app.net_done), (2, 2, 0));
    handle_message(Message::NetEvent { elapsed_ms: 120 }, &mut app, &english(), Vec::new());
    assert_eq!((app.net_total, app.net_inflight, app.net_done), (2, 1, 1));
    assert_eq!(app.net_last_ms, Some(120));
    handle_message(Message::NetEvent { elapsed_ms: 5 }, &mut app, &english(), Vec::new());
    handle_message(Message::NetEvent { elapsed_ms: 6 }, &mut app, &english(), Vec::new());
    assert_eq!((app.net_inflight, app.net_done), (0, 3));
    app.net_done = usize::MAX;
    handle_message(Message::NetEvent { elapsed_ms: 7 }, &mut app, &english(), Vec::new());
    assert_eq!(app.net_done, usize::MAX);
}

#[test]
fn picture_tables_are_asked_for_once_a_player_is_loaded() {
    let mut app = App::new(0);
    assert!(!app.request_hero_images());
    app.profile = Some(PlayerResponse::default());
    assert!(app.request_hero_images());
    assert!(!app.request_hero_images());
    assert!(app.request_item_images());
    assert!(!app.request_item_images());
    assert_eq!((app.net_total, app.net_inflight), (2, 2));
    let mut other = App::new(0);
    other.profile = Some(PlayerResponse::default());
    other.hero_images.insert(1, "x".to_string());
    assert!(!other.request_hero_images());
}

#[test]
fn tick_wraps_and_shimmer_runs_down() {
    let mut app = App::new(0);
    app.advance_tick();
    assert_eq!((app.tick, app.banner_shimmer), (1, 23));
    app.tick = u64::MAX;
    app.banner_shimmer = 0;
    app.advance_tick();
    assert_eq!((app.tick, app.banner_shimmer), (0, 0));
}

#[test]
fn clear_matches_resets_cursor_and_detail() {
    let mut app = App::new(0);
    app.matches.push(a_match(1));
    app.match_state.select(None);
    app.match_detail = Some(MatchDetail { players: Vec::new() });
    app.clear_matches();
    assert!(app.matches.is_empty());
    assert_eq!(app.match_state.selected(), Some(0));
    assert!(app.match_detail.is_none());
}

fn entry(account_id: u32, name: &str) -> SearchEntry {
    SearchEntry { account_id, personaname: name.to_string(), avatar_url: None }
}

#[test]
fn recent_searches_keep_five_newest_without_duplicates() {
    let mut recent = Vec::new();
    for id in 1..=6u32 {
        let logged = push_recent_search(&mut recent, id, format!("p{id}"), Some(format!("a{id}")));
        assert_eq!(logged.account_id, id);
        assert_eq!(logged.personaname, format!("p{id}"));
        assert_eq!(logged.avatar_url, Some(format!("a{id}")));
    }
    let ids: Vec<u32> = recent.iter().map(|e| e.account_id).collect();
    assert_eq!(ids, vec![6, 5, 4, 3, 2]);
    push_recent_search(&mut recent, 3, "again".to_string(), None);
    let ids: Vec<u32> = recent.iter().map(|e| e.account_id).collect();
    assert_eq!(ids, vec![3, 6, 5, 4, 2]);
    assert_eq!(recent[0].personaname, "again");
    assert_eq!(recent[0].avatar_url, None);
}

#[test]
fn recent_from_log_reads_newest_first() {
    let log = vec![entry(1, "a"), entry(2, "b"), entry(1, "c"), entry(3, "d"), entry(2, "e")];
    let recent = recent_from_log(log, 5);
    let seen: Vec<(u32, &str)> = recent.iter().map(|e| (e.account_id, e.personaname.as_str())).collect();
    assert_eq!(seen, vec![(2, "e"), (3, "d"), (1, "c")]);
}

#[test]
fn recent_from_log_stops_at_the_limit() {
    let log: Vec<SearchEntry> = (1..=9u32).map(|i| entry(i, "x")).collect();
    let ids: Vec<u32> = recent_from_log(log.clone(), 5).iter().map(|e| e.account_id).collect();
    assert_eq!(ids, vec![9, 8, 7, 6, 5]);
    let ids: Vec<u32> = recent_from_log(log.clone(), 1).iter().map(|e| e.account_id).collect();
    assert_eq!(ids, vec![9]);
    let ids: Vec<u32> = recent_from_log(log, 0).iter().map(|e| e.account_id).collect();
    assert_eq!(ids, vec![9]);
    assert!(recent_from_log(Vec::new(), 5).is_empty());
}

#[test]
fn avatar_map_keeps_numeric_keys() {
    let map = avatar_map_from_entries(vec![
        ("12".to_string(), "a".to_string()),
        ("x".to_string(), "b".to_string()),
        ("+7".to_string(), "c".to_string()),
        ("4294967296".to_string(), "d".to_string()),
        ("4294967295".to_string(), "e".to_string()),
        ("".to_string(), "f".to_string()),
        (" 1".to_string(), "g".to_string()),
        ("-1".to_string(), "h".to_string()),
        ("007".to_string(), "i".to_string()),
    ]);
    assert_eq!(map.len(), 3);
    assert_eq!(map.get(&12).map(String::as_str), Some("a"));
    assert_eq!(map.get(&7).map(String::as_str), Some("i"));
    assert_eq!(map.get(&u32::MAX).map(String::as_str), Some("e"));
}

#[test]
fn avatar_map_is_read_from_json() {
    let map = load_avatar_map(br#"{"135664392": "https://a/1.jpg", "oops": "x", "2": "https://a/2.jpg"}"#);
    assert_eq!(map.len(), 2);
    assert_eq!(map.get(&135664392).map(String::as_str), Some("https://a/1.jpg"));
    assert_eq!(map.get(&2).map(String::as_str), Some("https://a/2.jpg"));
    assert!(load_avatar_map(b"not json").is_empty());
    assert!(load_avatar_map(br#"{"1": 5}"#).is_empty());
    assert!(load_avatar_map(b"").is_empty());
}

#[test]
fn asset_map_builds_addresses() {
    let map = build_asset_map(
        vec![
            (1, Some("/apps/dota2/images/a.png".to_string())),
            (2, None),
            (3, Some("https://elsewhere/b.png".to_string())),
            (4, Some("httpx".to_string())),
            (1, Some("/later.png".to_string())),
        ],
        "https://cdn.example.com///",
    );
    assert_eq!(map.len(), 3);
    assert_eq!(map.get(&1).map(String::as_str), Some("https://cdn.example.com/later.png"));
    assert_eq!(map.get(&3).map(String::as_str), Some("https://elsewhere/b.png"));
    assert_eq!(map.get(&4).map(String::as_str), Some("httpx"));
    let plain = build_asset_map(vec![(9, Some("x".to_string()))], "base");
    assert_eq!(plain.get(&9).map(String::as_str), Some("basex"));
    let slashes = build_asset_map(vec![(9, Some("/x".to_string()))], "//");
    assert_eq!(slashes.get(&9).map(String::as_str), Some("/x"));
}

#[test]
fn avatar_result_picks_the_preferred_picture() {
    let got = avatar_result(Ok(a_profile(None, None, Some("m"), Some("s"))));
    assert_eq!(got, Ok(Some("m".to_string())));
    assert_eq!(avatar_result(Ok(PlayerResponse::default())), Ok(None));
    assert_eq!(avatar_result(Err("down".to_string())), Err("down".to_string()));
}

#[test]
fn pictures_are_drawn_waited_for_or_looked_up() {
    let mut app = App::new(0);
    assert_eq!(app.picture_step("u"), dota2_tui::app::PictureStep::Look);
    assert!(app.begin_image_fetch("u"));
    assert_eq!(app.picture_step("u"), dota2_tui::app::PictureStep::Wait);
    app.cache_image("u".to_string(), vec![1]);
    assert_eq!(app.picture_step("u"), dota2_tui::app::PictureStep::Draw);
    assert_eq!(app.picture_step("v"), dota2_tui::app::PictureStep::Look);
}

#[test]
fn pictures_from_disk_are_kept_as_png_or_as_they_are() {
    let mut app = App::new(0);
    let png = b"\x89PNG\r\n\x1a\nbody".to_vec();
    assert_eq!(app.keep_disk_picture("a", png.clone()), png);
    assert_eq!(app.image_cache.get("a"), Some(&png));
    let junk = b"junk".to_vec();
    assert_eq!(app.keep_disk_picture("b", junk.clone()), junk);
    assert_eq!(app.image_cache.get("b"), Some(&junk));
    assert_eq!(app.image_cache.key_at(0).map(String::as_str), Some("b"));
}

#[test]
fn fetched_pictures_are_kept_only_as_png() {
    let mut app = App::new(0);
    let png = b"\x89PNG\r\n\x1a\nbody".to_vec();
    assert_eq!(app.keep_fetched_picture("a", &png), Some(png.clone()));
    assert_eq!(app.image_cache.get("a"), Some(&png));
    assert_eq!(app.keep_fetched_picture("b", b"junk"), None);
    assert!(app.image_cache.get("b").is_none());
    assert_eq!(app.image_cache.len(), 1);
}

#[test]
fn avatar_map_lives_in_the_cache_directory() {
    assert_eq!(
        dota2_tui::app::avatar_map_path(Some("/home/u/.cache")).unwrap(),
        "/home/u/.cache/dota2_tui/avatar_map.json"
    );
    assert!(matches!(
        dota2_tui::app::avatar_map_path(None),
        Err(dota2_tui::config::ConfigError::NoCacheDirectory)
    ));
}
