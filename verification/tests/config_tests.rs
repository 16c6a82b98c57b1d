use dota2_tui::config::{
    cache_dir, config_path, parse_keycode, parse_keycombo, recent_log_path, ApiConfig, Color,
    Config, ConfigError, ImageConfig, KeyCode, KeyCombo, KeyModifiers, Keybinds, Theme,
    ThemeConfig, UiConfig,
};

fn none() -> KeyModifiers {
    KeyModifiers::empty()
}

fn combo(code: KeyCode, modifiers: KeyModifiers) -> KeyCombo {
    KeyCombo { code, modifiers }
}

#[test]
fn defaults_are_the_documented_ones() {
    let config = Config::default();
    assert_eq!(config.theme.name, "catppuccin");
    assert_eq!(config.keybinds.search, "/");
    assert_eq!(config.keybinds.quit, "q");
    assert_eq!(config.keybinds.up, "k");
    assert_eq!(config.keybinds.down, "j");
    assert_eq!(config.keybinds.select, "Enter");
    assert_eq!(config.keybinds.top, "g");
    assert_eq!(config.keybinds.bottom, "G");
    assert_eq!(config.keybinds.clear_input, "Ctrl+u");
    assert_eq!(config.keybinds.tab_next, "Right");
    assert_eq!(config.keybinds.tab_prev, "Left");
    assert_eq!(config.keybinds.help, "?");
    assert_eq!(config.api.base_url, "https://api.opendota.com/api");
    assert_eq!(config.api.rate_limit_per_minute, 60);
    assert_eq!(config.api.cache_ttl_secs, 300);
    assert_eq!(config.api.cache_max_entries, 256);
    assert_eq!(config.api.max_inflight, 6);
    assert!(config.api.log_requests);
    assert!(config.images.enabled);
    assert_eq!(config.images.protocol, "auto");
    assert_eq!(config.images.cdn_base, "https://cdn.cloudflare.steamstatic.com");
    assert_eq!(config.ui.language, "zh");
    assert_eq!(ThemeConfig::default().name, "catppuccin");
    assert_eq!(Keybinds::default().help, "?");
    assert_eq!(ApiConfig::default().max_inflight, 6);
    assert_eq!(ImageConfig::default().protocol, "auto");
    assert_eq!(UiConfig::default().language, "zh");
}

#[test]
fn themes_resolve_by_name() {
    let mut config = Config::default();
    assert_eq!(
        config.resolve_theme(),
        Theme {
            base: Color::Rgb(30, 30, 46),
            text: Color::Rgb(205, 214, 244),
            accent: Color::Rgb(137, 180, 250),
            warn: Color::Rgb(243, 139, 168),
            success: Color::Rgb(166, 227, 161),
        }
    );
    config.theme.name = "gruvbox".to_string();
    assert_eq!(
        config.resolve_theme(),
        Theme {
            base: Color::Rgb(40, 40, 40),
            text: Color::Rgb(235, 219, 178),
            accent: Color::Rgb(250, 189, 47),
            warn: Color::Rgb(251, 73, 52),
            success: Color::Rgb(184, 187, 38),
        }
    );
    for other in ["Gruvbox", "", "solarized"] {
        config.theme.name = other.to_string();
        assert_eq!(
            config.resolve_theme(),
            Theme {
                base: Color::Black,
                text: Color::White,
                accent: Color::Cyan,
                warn: Color::Red,
                success: Color::Green,
            }
        );
    }
}

#[test]
fn keycodes_parse_by_name_or_character() {
    assert_eq!(parse_keycode("q").unwrap(), KeyCode::Char('q'));
    assert_eq!(parse_keycode(" / ").unwrap(), KeyCode::Char('/'));
    assert_eq!(parse_keycode("ENTER").unwrap(), KeyCode::Enter);
    assert_eq!(parse_keycode("tab").unwrap(), KeyCode::Tab);
    assert_eq!(parse_keycode("Esc").unwrap(), KeyCode::Esc);
    assert_eq!(parse_keycode("escape").unwrap(), KeyCode::Esc);
    assert_eq!(parse_keycode("Backspace").unwrap(), KeyCode::Backspace);
    assert_eq!(parse_keycode("up").unwrap(), KeyCode::Up);
    assert_eq!(parse_keycode("down").unwrap(), KeyCode::Down);
    assert_eq!(parse_keycode("left").unwrap(), KeyCode::Left);
    assert_eq!(parse_keycode("right").unwrap(), KeyCode::Right);
    assert_eq!(parse_keycode("home").unwrap(), KeyCode::Home);
    assert_eq!(parse_keycode("end").unwrap(), KeyCode::End);
    assert_eq!(parse_keycode("PageUp").unwrap(), KeyCode::PageUp);
    assert_eq!(parse_keycode("pagedown").unwrap(), KeyCode::PageDown);
    assert_eq!(parse_keycode("insert").unwrap(), KeyCode::Insert);
    assert_eq!(parse_keycode("delete").unwrap(), KeyCode::Delete);
    assert_eq!(parse_keycode("Space").unwrap(), KeyCode::Char(' '));
}

#[test]
fn unknown_keys_are_reported_in_lower_case() {
    match parse_keycode("F13") {
        Err(ConfigError::UnknownKey(name)) => assert_eq!(name, "f13"),
        other => panic!("unexpected {other:?}"),
    }
    match parse_keycode("") {
        Err(ConfigError::UnknownKey(name)) => assert_eq!(name, ""),
        other => panic!("unexpected {other:?}"),
    }
    match parse_keycode("é") {
        Err(ConfigError::UnknownKey(name)) => assert_eq!(name, "é"),
        other => panic!("unexpected {other:?}"),
    }
    assert_eq!(parse_keycode("Nope").unwrap_err().message(), "Unknown key: nope");
}

#[test]
fn keycombos_parse_modifiers() {
    let control = KeyModifiers { control: true, ..none() };
    assert_eq!(parse_keycombo("Ctrl+u").unwrap(), combo(KeyCode::Char('u'), control));
    assert_eq!(parse_keycombo("control+U").unwrap(), combo(KeyCode::Char('U'), control));
    let all = KeyModifiers { control: true, alt: true, shift: true, ..none() };
    assert_eq!(parse_keycombo(" Shift+ALT+ctrl+Enter ").unwrap(), combo(KeyCode::Enter, all));
    assert_eq!(parse_keycombo("q").unwrap(), combo(KeyCode::Char('q'), none()));
    let shift = KeyModifiers { shift: true, ..none() };
    assert_eq!(parse_keycombo("G").unwrap(), combo(KeyCode::Char('G'), shift));
    assert_eq!(parse_keycombo("Right").unwrap(), combo(KeyCode::Right, none()));
    assert_eq!(parse_keycombo("alt+ x").unwrap(), combo(KeyCode::Char('x'), KeyModifiers { alt: true, ..none() }));
}

#[test]
fn bad_keycombos_are_refused() {
    assert!(matches!(parse_keycombo(""), Err(ConfigError::EmptyKeybind)));
    assert!(matches!(parse_keycombo("  \t"), Err(ConfigError::EmptyKeybind)));
    assert_eq!(parse_keycombo("").unwrap_err().message(), "Empty keybind");
    match parse_keycombo("Hyper+x") {
        Err(ConfigError::UnknownModifier(name)) => assert_eq!(name, "hyper"),
        other => panic!("unexpected {other:?}"),
    }
    match parse_keycombo("ctrl +x") {
        Err(ConfigError::UnknownModifier(name)) => assert_eq!(name, "ctrl "),
        other => panic!("unexpected {other:?}"),
    }
    match parse_keycombo("+") {
        Err(ConfigError::UnknownModifier(name)) => assert_eq!(name, ""),
        other => panic!("unexpected {other:?}"),
    }
    match parse_keycombo("Ctrl+") {
        Err(ConfigError::UnknownKey(name)) => assert_eq!(name, ""),
        other => panic!("unexpected {other:?}"),
    }
    match parse_keycombo("Nope+AlsoNope") {
        Err(ConfigError::UnknownModifier(name)) => assert_eq!(name, "nope"),
        other => panic!("unexpected {other:?}"),
    }
    assert_eq!(parse_keycombo("Win+x").unwrap_err().message(), "Unknown modifier: win");
}

#[test]
fn combos_match_exact_modifiers() {
    let control = KeyModifiers { control: true, ..none() };
    let both = KeyModifiers { control: true, shift: true, ..none() };
    let plain = combo(KeyCode::Char('q'), none());
    assert!(dota2_tui::config::matches(plain, KeyCode::Char('q'), none()));
    assert!(!dota2_tui::config::matches(plain, KeyCode::Char('q'), control));
    assert!(!dota2_tui::config::matches(plain, KeyCode::Char('Q'), none()));
    let with_control = combo(KeyCode::Char('u'), control);
    assert!(dota2_tui::config::matches(with_control, KeyCode::Char('u'), control));
    assert!(!dota2_tui::config::matches(with_control, KeyCode::Char('u'), none()));
    assert!(!dota2_tui::config::matches(with_control, KeyCode::Char('u'), both));
    assert!(!dota2_tui::config::matches(with_control, KeyCode::Enter, control));
    assert!(none().is_empty());
    assert!(!control.is_empty());
}

#[test]
fn default_keybinds_resolve() {
    let binds = Config::default().resolve_keybinds().unwrap();
    assert_eq!(binds.search, combo(KeyCode::Char('/'), none()));
    assert_eq!(binds.select, combo(KeyCode::Enter, none()));
    assert_eq!(binds.bottom, combo(KeyCode::Char('G'), KeyModifiers { shift: true, ..none() }));
    assert_eq!(binds.clear_input, combo(KeyCode::Char('u'), KeyModifiers { control: true, ..none() }));
    assert_eq!(binds.tab_next, combo(KeyCode::Right, none()));
    assert_eq!(binds.tab_prev, combo(KeyCode::Left, none()));
    assert_eq!(binds.help, combo(KeyCode::Char('?'), none()));
}

#[test]
fn first_bad_keybind_is_reported() {
    let mut config = Config::default();
    config.keybinds.help = "".to_string();
    config.keybinds.up = "Meta+k".to_string();
    match config.resolve_keybinds() {
        Err(ConfigError::UnknownModifier(name)) => assert_eq!(name, "meta"),
        other => panic!("unexpected {other:?}"),
    }
    config.keybinds.up = "k".to_string();
    assert!(matches!(config.resolve_keybinds(), Err(ConfigError::EmptyKeybind)));
}

#[test]
fn files_live_under_the_program_directory() {
    assert_eq!(config_path(Some("/home/u/.config")).unwrap(), "/home/u/.config/dota2_tui/config.toml");
    assert_eq!(recent_log_path(Some("/c")).unwrap(), "/c/dota2_tui/recent.jsonl");
    assert_eq!(cache_dir(Some("/home/u/.cache")).unwrap(), "/home/u/.cache/dota2_tui");
    assert!(matches!(config_path(None), Err(ConfigError::NoConfigDirectory)));
    assert!(matches!(recent_log_path(None), Err(ConfigError::NoConfigDirectory)));
    assert!(matches!(cache_dir(None), Err(ConfigError::NoCacheDirectory)));
    assert_eq!(config_path(None).unwrap_err().message(), "No config directory");
    assert_eq!(cache_dir(None).unwrap_err().message(), "No cache directory");
}

#[test]
fn request_log_follows_the_setting() {
    let mut api = ApiConfig::default();
    assert_eq!(api.resolve_log_path(Some("/c")).unwrap(), Some("/c/dota2_tui/tui.log".to_string()));
    assert!(matches!(api.resolve_log_path(None), Err(ConfigError::NoConfigDirectory)));
    api.log_requests = false;
    assert_eq!(api.resolve_log_path(Some("/c")).unwrap(), None);
    assert_eq!(api.resolve_log_path(None).unwrap(), None);
}

#[test]
fn api_limits_derived_from_settings() {
    let mut api = ApiConfig::default();
    assert_eq!(api.permits(), 6);
    api.max_inflight = 0;
    assert_eq!(api.permits(), 1);
    assert_eq!(api.cache_ttl_millis(), 300_000);
    api.cache_ttl_secs = u64::MAX;
    assert_eq!(api.cache_ttl_millis(), u64::MAX);
    api.cache_ttl_secs = u64::MAX / 1000;
    assert_eq!(api.cache_ttl_millis(), u64::MAX / 1000 * 1000);
}
