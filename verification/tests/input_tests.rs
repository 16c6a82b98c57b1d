use dota2_tui::app::{App, InputMode, SearchEntry};
use dota2_tui::config::{Config, KeyCode, KeyModifiers, ResolvedKeybinds};
use dota2_tui::i18n::{I18n, Language};
use dota2_tui::input::{
    autocomplete_recent, can_navigate, handle_editing_key, handle_event, handle_normal_key,
    parse_account_id, select_next_match, select_next_recent, select_prev_match,
    select_prev_recent, start_search_from_input, start_search_with_id, Command, Event, KeyEvent,
    KeyEventKind,
};
use dota2_tui::models::PlayerMatch;

fn english() -> I18n {
    I18n::new(Language::En)
}

fn binds() -> ResolvedKeybinds {
    Config::default().resolve_keybinds().unwrap()
}

fn none() -> KeyModifiers {
    KeyModifiers { shift: false, control: false, alt: false, super_key: false, hyper: false, meta: false }
}

fn control() -> KeyModifiers {
    KeyModifiers { control: true, ..none() }
}

fn shift() -> KeyModifiers {
    KeyModifiers { shift: true, ..none() }
}

fn press(code: KeyCode, modifiers: KeyModifiers) -> KeyEvent {
    KeyEvent { code, modifiers, kind: KeyEventKind::Press }
}

fn a_match(match_id: u64) -> PlayerMatch {
    PlayerMatch {
        match_id,
        player_slot: 0,
        radiant_win: true,
        duration: 0,
        start_time: None,
        hero_id: 1,
        game_mode: None,
        kills: None,
        deaths: None,
        assists: None,
    }
}

fn entry(account_id: u32, name: &str) -> SearchEntry {
    SearchEntry { account_id, personaname: name.to_string(), avatar_url: None }
}

#[test]
fn account_id_from_platform_offset_is_zero() {
    assert_eq!(parse_account_id("76561197960265728"), Ok(0));
}

#[test]
fn account_id_of_plain_number_is_itself() {
    assert_eq!(parse_account_id("135664392"), Ok(135664392));
    assert_eq!(parse_account_id("0"), Ok(0));
    assert_eq!(parse_account_id("4294967295"), Ok(u32::MAX));
    assert_eq!(parse_account_id("  42\t\n"), Ok(42));
    assert_eq!(parse_account_id("+42"), Ok(42));
    assert_eq!(parse_account_id("0042"), Ok(42));
}

#[test]
fn account_id_from_platform_id_subtracts_the_offset() {
    assert_eq!(parse_account_id("76561198095930120"), Ok(135664392));
    assert_eq!(parse_account_id("76561202255233023"), Ok(u32::MAX));
}

#[test]
fn platform_id_beyond_the_last_account_fails() {
    assert_eq!(parse_account_id("76561202255233024"), Err("SteamID too large".to_string()));
    assert_eq!(parse_account_id("18446744073709551615"), Err("SteamID too large".to_string()));
    assert_eq!(parse_account_id(" 76561202255233025 "), Err("SteamID too large".to_string()));
}

#[test]
fn account_id_above_32_bits_without_offset_fails() {
    assert_eq!(parse_account_id("4294967296"), Err("SteamID too large".to_string()));
    assert_eq!(parse_account_id("76561197960265727"), Err("SteamID too large".to_string()));
}

#[test]
fn account_id_must_be_numeric() {
    for bad in ["", "   ", "abc", "12a", "-1", "1 2", "18446744073709551616", "+", "１２"] {
        assert_eq!(parse_account_id(bad), Err("SteamID must be numeric".to_string()), "{bad:?}");
    }
}

#[test]
fn match_cursor_wraps_both_ways() {
    let mut app = App::new(0);
    select_next_match(&mut app);
    assert_eq!(app.match_state.selected(), Some(0));
    app.matches = vec![a_match(1), a_match(2), a_match(3)];
    select_next_match(&mut app);
    assert_eq!(app.match_state.selected(), Some(1));
    select_next_match(&mut app);
    select_next_match(&mut app);
    assert_eq!(app.match_state.selected(), Some(0));
    select_prev_match(&mut app);
    assert_eq!(app.match_state.selected(), Some(2));
    select_prev_match(&mut app);
    assert_eq!(app.match_state.selected(), Some(1));
    app.match_state.select(None);
    select_prev_match(&mut app);
    assert_eq!(app.match_state.selected(), Some(2));
    app.match_state.select(None);
    select_next_match(&mut app);
    assert_eq!(app.match_state.selected(), Some(0));
    app.match_state.select(Some(usize::MAX));
    select_next_match(&mut app);
    assert_eq!(app.match_state.selected(), Some(0));
}

#[test]
fn recent_cursor_wraps_and_becomes_active() {
    let mut app = App::new(0);
    select_next_recent(&mut app);
    assert!(!app.recent_active);
    assert_eq!(app.recent_index, None);
    app.recent_searches = vec![entry(1, "a"), entry(2, "b")];
    select_next_recent(&mut app);
    assert!(app.recent_active);
    assert_eq!(app.recent_index, Some(0));
    select_next_recent(&mut app);
    assert_eq!(app.recent_index, Some(1));
    select_next_recent(&mut app);
    assert_eq!(app.recent_index, Some(0));
    select_prev_recent(&mut app);
    assert_eq!(app.recent_index, Some(1));
}

#[test]
fn navigation_is_debounced() {
    let mut app = App::new(10_000);
    assert!(can_navigate(&mut app, 10_000));
    assert_eq!(app.last_nav, 10_000);
    assert!(!can_navigate(&mut app, 10_079));
    assert_eq!(app.last_nav, 10_000);
    assert!(can_navigate(&mut app, 10_080));
    assert_eq!(app.last_nav, 10_080);
    assert!(!can_navigate(&mut app, 5));
}

#[test]
fn autocomplete_finds_by_name_or_id() {
    let mut app = App::new(0);
    assert!(autocomplete_recent(&app).is_none());
    app.recent_searches = vec![entry(135664392, "Dendi"), entry(22, "Puppey"), entry(1350, "N0tail")];
    assert_eq!(autocomplete_recent(&app).map(|e| e.account_id), Some(135664392));
    app.input = "  PUP ".to_string();
    assert_eq!(autocomplete_recent(&app).map(|e| e.account_id), Some(22));
    app.input = "n0".to_string();
    assert_eq!(autocomplete_recent(&app).map(|e| e.account_id), Some(1350));
    app.input = "135".to_string();
    assert_eq!(autocomplete_recent(&app).map(|e| e.account_id), Some(135664392));
    app.input = "1350".to_string();
    assert_eq!(autocomplete_recent(&app).map(|e| e.account_id), Some(1350));
    app.input = "zzz".to_string();
    assert!(autocomplete_recent(&app).is_none());
}

#[test]
fn starting_a_search_resets_the_player() {
    let mut app = App::new(0);
    app.matches = vec![a_match(1)];
    app.match_state.select(None);
    app.avatar_url = Some("old".to_string());
    app.player_avatar_requests.insert(4);
    app.pending_player_avatar_ids = vec![4];
    app.begin_image_fetch("u");
    app.detail_loading = true;
    app.player_avatars.insert(9, "kept".to_string());
    let zh = I18n::new(Language::Zh);
    let out = start_search_with_id(&mut app, &zh, 135664392);
    assert_eq!(out, Command::Search { account_id: 135664392 });
    assert!(app.loading);
    assert!(!app.detail_loading);
    assert_eq!(app.account_id, Some(135664392));
    assert!(app.profile.is_none());
    assert!(app.matches.is_empty());
    assert_eq!(app.match_state.selected(), Some(0));
    assert!(app.avatar_url.is_none());
    assert!(app.player_avatar_requests.is_empty());
    assert!(app.pending_player_avatar_ids.is_empty());
    assert!(app.image_inflight.is_empty());
    assert!(app.image_reset);
    assert_eq!((app.net_total, app.net_done, app.net_inflight), (2, 0, 2));
    assert_eq!(app.net_last_ms, None);
    assert_eq!(app.status, "加载玩家 135664392...");
    assert_eq!(app.player_avatars.len(), 1);
}

#[test]
fn submitting_the_input() {
    let mut app = App::new(0);
    app.input = "   ".to_string();
    assert_eq!(start_search_from_input(&mut app, &english()), None);
    assert_eq!(app.status, "Enter a SteamID64 or account_id");
    app.input = "dendi".to_string();
    assert_eq!(start_search_from_input(&mut app, &english()), None);
    assert_eq!(app.status, "Use account_id or SteamID64");
    assert!(!app.loading);
    app.input = " 76561198095930120 ".to_string();
    assert_eq!(
        start_search_from_input(&mut app, &english()),
        Some(Command::Search { account_id: 135664392 })
    );
    assert_eq!(app.status, "Loading player 135664392...");
    assert!(app.loading);
}

#[test]
fn editing_keys_edit_the_input() {
    let mut app = App::new(0);
    app.input_mode = InputMode::Editing;
    let b = binds();
    let i = english();
    for c in ['1', '3', 'x'] {
        assert_eq!(handle_editing_key(press(KeyCode::Char(c), none()), &mut app, &b, &i), None);
    }
    assert_eq!(app.input, "13x");
    handle_editing_key(press(KeyCode::Backspace, none()), &mut app, &b, &i);
    assert_eq!(app.input, "13");
    handle_editing_key(press(KeyCode::Char('c'), control()), &mut app, &b, &i);
    assert_eq!(app.input, "13");
    handle_editing_key(press(KeyCode::Char('Q'), shift()), &mut app, &b, &i);
    assert_eq!(app.input, "13Q");
    handle_editing_key(press(KeyCode::Char('u'), control()), &mut app, &b, &i);
    assert_eq!(app.input, "");
    handle_editing_key(press(KeyCode::Backspace, none()), &mut app, &b, &i);
    assert_eq!(app.input, "");
    handle_editing_key(press(KeyCode::Home, none()), &mut app, &b, &i);
    assert_eq!(app.input, "");
    assert_eq!(app.input_mode, InputMode::Editing);
}

#[test]
fn editing_special_keys() {
    let mut app = App::new(0);
    app.input_mode = InputMode::Editing;
    let b = binds();
    let i = english();
    handle_editing_key(press(KeyCode::Char('?'), none()), &mut app, &b, &i);
    assert!(app.show_help && app.image_reset);
    handle_editing_key(press(KeyCode::Char('?'), none()), &mut app, &b, &i);
    assert!(!app.show_help);
    app.recent_searches = vec![entry(77, "Dendi")];
    app.input = "den".to_string();
    handle_editing_key(press(KeyCode::Tab, none()), &mut app, &b, &i);
    assert_eq!(app.input, "77");
    app.input = "nobody".to_string();
    handle_editing_key(press(KeyCode::Tab, none()), &mut app, &b, &i);
    assert_eq!(app.input, "nobody");
    assert_eq!(handle_editing_key(press(KeyCode::Enter, none()), &mut app, &b, &i), None);
    assert_eq!(app.input_mode, InputMode::Editing);
    assert_eq!(app.status, "Use account_id or SteamID64");
    app.input = "77".to_string();
    assert_eq!(
        handle_editing_key(press(KeyCode::Enter, none()), &mut app, &b, &i),
        Some(Command::Search { account_id: 77 })
    );
    assert_eq!(app.input_mode, InputMode::Normal);
    app.input_mode = InputMode::Editing;
    handle_editing_key(press(KeyCode::Esc, none()), &mut app, &b, &i);
    assert_eq!(app.input_mode, InputMode::Normal);
    assert_eq!(app.status, "Search cancelled");
}

#[test]
fn normal_keys_navigate_and_switch() {
    let mut app = App::new(0);
    app.matches = vec![a_match(1), a_match(2), a_match(3)];
    let b = binds();
    let i = english();
    app.recent_active = true;
    assert_eq!(handle_normal_key(press(KeyCode::Char('j'), none()), &mut app, &b, &i, 1_000), None);
    assert_eq!(app.match_state.selected(), Some(1));
    assert!(!app.recent_active);
    handle_normal_key(press(KeyCode::Char('j'), none()), &mut app, &b, &i, 1_010);
    assert_eq!(app.match_state.selected(), Some(1));
    handle_normal_key(press(KeyCode::Char('G'), shift()), &mut app, &b, &i, 2_000);
    assert_eq!(app.match_state.selected(), Some(2));
    handle_normal_key(press(KeyCode::Char('g'), none()), &mut app, &b, &i, 3_000);
    assert_eq!(app.match_state.selected(), Some(0));
    handle_normal_key(press(KeyCode::Char('k'), none()), &mut app, &b, &i, 4_000);
    assert_eq!(app.match_state.selected(), Some(2));
    handle_normal_key(press(KeyCode::Right, none()), &mut app, &b, &i, 0);
    assert_eq!(app.tab_index, 1);
    handle_normal_key(press(KeyCode::Right, none()), &mut app, &b, &i, 0);
    handle_normal_key(press(KeyCode::Right, none()), &mut app, &b, &i, 0);
    assert_eq!(app.tab_index, 0);
    handle_normal_key(press(KeyCode::Left, none()), &mut app, &b, &i, 0);
    assert_eq!(app.tab_index, 2);
    handle_normal_key(press(KeyCode::Left, none()), &mut app, &b, &i, 0);
    assert_eq!(app.tab_index, 1);
    assert!(app.image_reset);
    handle_normal_key(press(KeyCode::Char('/'), none()), &mut app, &b, &i, 0);
    assert_eq!(app.input_mode, InputMode::Editing);
    assert_eq!(app.status, "Enter a SteamID64 or account_id");
    handle_normal_key(press(KeyCode::Esc, none()), &mut app, &b, &i, 0);
    assert_eq!(app.input_mode, InputMode::Normal);
    assert_eq!(app.status, "Search cancelled");
    handle_normal_key(press(KeyCode::Char('z'), none()), &mut app, &b, &i, 0);
    assert!(!app.should_quit);
    handle_normal_key(press(KeyCode::Char('q'), control()), &mut app, &b, &i, 0);
    assert!(!app.should_quit);
    handle_normal_key(press(KeyCode::Char('q'), none()), &mut app, &b, &i, 0);
    assert!(app.should_quit);
}

#[test]
fn help_swallows_other_keys() {
    let mut app = App::new(0);
    let b = binds();
    let i = english();
    handle_normal_key(press(KeyCode::Char('?'), none()), &mut app, &b, &i, 0);
    assert!(app.show_help);
    app.image_reset = false;
    handle_normal_key(press(KeyCode::Char('q'), none()), &mut app, &b, &i, 0);
    assert!(!app.should_quit && app.show_help && !app.image_reset);
    handle_normal_key(press(KeyCode::Esc, none()), &mut app, &b, &i, 0);
    assert!(!app.show_help && app.image_reset);
}

#[test]
fn select_opens_match_or_recent_search() {
    let mut app = App::new(0);
    let b = binds();
    let i = english();
    assert_eq!(handle_normal_key(press(KeyCode::Enter, none()), &mut app, &b, &i, 0), None);
    app.matches = vec![a_match(10), a_match(20)];
    app.match_state.select(Some(1));
    assert_eq!(
        handle_normal_key(press(KeyCode::Enter, none()), &mut app, &b, &i, 0),
        Some(Command::MatchDetail { match_id: 20 })
    );
    assert!(app.detail_loading);
    assert_eq!((app.net_total, app.net_done, app.net_inflight), (1, 0, 1));
    assert_eq!(app.status, "Loading match 20...");
    app.recent_searches = vec![entry(5, "a"), entry(6, "b")];
    handle_normal_key(press(KeyCode::Tab, control()), &mut app, &b, &i, 0);
    handle_normal_key(press(KeyCode::Tab, control()), &mut app, &b, &i, 0);
    assert_eq!(app.recent_index, Some(1));
    handle_normal_key(press(KeyCode::BackTab, control()), &mut app, &b, &i, 0);
    assert_eq!(app.recent_index, Some(0));
    assert_eq!(
        handle_normal_key(press(KeyCode::Enter, none()), &mut app, &b, &i, 0),
        Some(Command::Search { account_id: 5 })
    );
    assert_eq!(app.input, "5");
    assert!(!app.recent_active);
    assert!(app.loading);
    assert!(app.matches.is_empty());
}

#[test]
fn events_other_than_key_presses_are_ignored() {
    let mut app = App::new(0);
    let b = binds();
    let i = english();
    let release = KeyEvent { code: KeyCode::Char('q'), modifiers: none(), kind: KeyEventKind::Release };
    assert_eq!(handle_event(Event::Key(release), &mut app, &b, &i, 0), None);
    assert_eq!(handle_event(Event::Other, &mut app, &b, &i, 0), None);
    assert!(!app.should_quit);
    handle_event(Event::Key(press(KeyCode::Char('/'), none())), &mut app, &b, &i, 0);
    assert_eq!(app.input_mode, InputMode::Editing);
    handle_event(Event::Key(press(KeyCode::Char('q'), none())), &mut app, &b, &i, 0);
    assert_eq!(app.input, "q");
    assert!(!app.should_quit);
}
