//! The settings of the program and what they resolve to: a colour theme, the
//! keys that are bound to each action, and where the program keeps its files.

use crate::text::{
    chars_of, concat, is_text, lowered, owned, pieces, split, split_on, string_from_chars, to_lower,
    trim, trimmed,
};
use vstd::prelude::*;

verus! {

/// The directory of the program under the user's configuration and cache
/// roots.
pub open spec fn app_dir_text() -> Seq<char> {
    "/dota2_tui"@
}

#[derive(Debug, Clone)]
pub struct Config {
    pub theme: ThemeConfig,
    pub keybinds: Keybinds,
    pub api: ApiConfig,
    pub images: ImageConfig,
    pub ui: UiConfig,
}

#[derive(Debug, Clone)]
pub struct ThemeConfig {
    pub name: String,
}

/// The key of each action, as the settings spell it.
#[derive(Debug, Clone)]
pub struct Keybinds {
    pub search: String,
    pub quit: String,
    pub up: String,
    pub down: String,
    pub select: String,
    pub top: String,
    pub bottom: String,
    pub clear_input: String,
    pub tab_next: String,
    pub tab_prev: String,
    pub help: String,
}

#[derive(Debug, Clone)]
pub struct ApiConfig {
    pub base_url: String,
    pub rate_limit_per_minute: u32,
    pub cache_ttl_secs: u64,
    pub cache_max_entries: usize,
    pub max_inflight: usize,
    pub log_requests: bool,
}

#[derive(Debug, Clone)]
pub struct ImageConfig {
    pub enabled: bool,
    pub protocol: String,
    pub cdn_base: String,
}

#[derive(Debug, Clone)]
pub struct UiConfig {
    pub language: String,
}

/// A colour of the terminal: one of its named colours, or one given by its
/// red, green and blue parts.
#[derive(Debug, Clone, Copy, PartialEq, Eq, Structural)]
pub enum Color {
    Black,
    Red,
    Green,
    Cyan,
    White,
    Rgb(u8, u8, u8),
}

#[derive(Debug, Clone, Copy, PartialEq, Eq, Structural)]
pub struct Theme {
    pub base: Color,
    pub text: Color,
    pub accent: Color,
    pub warn: Color,
    pub success: Color,
}

/// A key of the keyboard. `Other` stands for every key that no binding can
/// name.
#[derive(Debug, Clone, Copy, PartialEq, Eq, Structural)]
pub enum KeyCode {
    Char(char),
    Enter,
    Tab,
    BackTab,
    Esc,
    Backspace,
    Up,
    Down,
    Left,
    Right,
    Home,
    End,
    PageUp,
    PageDown,
    Insert,
    Delete,
    Other,
}

/// The modifier keys that are held down with a key.
#[derive(Debug, Clone, Copy, PartialEq, Eq, Structural)]
pub struct KeyModifiers {
    pub shift: bool,
    pub control: bool,
    pub alt: bool,
    pub super_key: bool,
    pub hyper: bool,
    pub meta: bool,
}

impl KeyModifiers {
    /// No modifier at all.
    pub open spec fn none() -> KeyModifiers {
        KeyModifiers {
            shift: false,
            control: false,
            alt: false,
            super_key: false,
            hyper: false,
            meta: false,
        }
    }

    pub fn empty() -> (r: KeyModifiers)
        ensures
            r == KeyModifiers::none(),
    {
        KeyModifiers {
            shift: false,
            control: false,
            alt: false,
            super_key: false,
            hyper: false,
            meta: false,
        }
    }

    pub fn is_empty(&self) -> (r: bool)
        ensures
            r == (*self == KeyModifiers::none()),
    {
        !self.shift && !self.control && !self.alt && !self.super_key && !self.hyper && !self.meta
    }
}

#[derive(Debug, Clone, Copy, PartialEq, Eq, Structural)]
pub struct KeyCombo {
    pub code: KeyCode,
    pub modifiers: KeyModifiers,
}

#[derive(Debug, Clone, Copy)]
pub struct ResolvedKeybinds {
    pub search: KeyCombo,
    pub quit: KeyCombo,
    pub up: KeyCombo,
    pub down: KeyCombo,
    pub select: KeyCombo,
    pub top: KeyCombo,
    pub bottom: KeyCombo,
    pub clear_input: KeyCombo,
    pub tab_next: KeyCombo,
    pub tab_prev: KeyCombo,
    pub help: KeyCombo,
}

/// Why a setting could not be resolved.
#[derive(Debug)]
pub enum ConfigError {
    /// A binding that names no key.
    EmptyKeybind,
    /// A binding with a modifier that is none of the known ones.
    UnknownModifier(String),
    /// A binding with a key that is none of the known ones.
    UnknownKey(String),
    /// The system names no directory for configuration files.
    NoConfigDirectory,
    /// The system names no directory for cached files.
    NoCacheDirectory,
}

/// A `ConfigError` with its texts as sequences of characters.
pub enum ConfigErrorText {
    EmptyKeybind,
    UnknownModifier(Seq<char>),
    UnknownKey(Seq<char>),
    NoConfigDirectory,
    NoCacheDirectory,
}

impl View for ConfigError {
    type V = ConfigErrorText;

    open spec fn view(&self) -> ConfigErrorText {
        match *self {
            ConfigError::EmptyKeybind => ConfigErrorText::EmptyKeybind,
            ConfigError::UnknownModifier(s) => ConfigErrorText::UnknownModifier(s@),
            ConfigError::UnknownKey(s) => ConfigErrorText::UnknownKey(s@),
            ConfigError::NoConfigDirectory => ConfigErrorText::NoConfigDirectory,
            ConfigError::NoCacheDirectory => ConfigErrorText::NoCacheDirectory,
        }
    }
}

impl ConfigError {
    /// The error in words.
    pub open spec fn message_text(self) -> Seq<char> {
        match self {
            ConfigError::EmptyKeybind => "Empty keybind"@,
            ConfigError::UnknownModifier(s) => "Unknown modifier: "@ + s@,
            ConfigError::UnknownKey(s) => "Unknown key: "@ + s@,
            ConfigError::NoConfigDirectory => "No config directory"@,
            ConfigError::NoCacheDirectory => "No cache directory"@,
        }
    }

    pub fn message(&self) -> (r: String)
        ensures
            r@ == self.message_text(),
    {
        match self {
            ConfigError::EmptyKeybind => owned("Empty keybind"),
            ConfigError::UnknownModifier(s) => concat("Unknown modifier: ", s.as_str()),
            ConfigError::UnknownKey(s) => concat("Unknown key: ", s.as_str()),
            ConfigError::NoConfigDirectory => owned("No config directory"),
            ConfigError::NoCacheDirectory => owned("No cache directory"),
        }
    }
}

impl Default for ThemeConfig {
    fn default() -> (r: Self)
        ensures
            r.name@ == "catppuccin"@,
    {
        ThemeConfig { name: owned("catppuccin") }
    }
}

impl Default for Keybinds {
    fn default() -> (r: Self)
        ensures
            r.search@ == "/"@,
            r.quit@ == "q"@,
            r.up@ == "k"@,
            r.down@ == "j"@,
            r.select@ == "Enter"@,
            r.top@ == "g"@,
            r.bottom@ == "G"@,
            r.clear_input@ == "Ctrl+u"@,
            r.tab_next@ == "Right"@,
            r.tab_prev@ == "Left"@,
            r.help@ == "?"@,
    {
        Keybinds {
            search: owned("/"),
            quit: owned("q"),
            up: owned("k"),
            down: owned("j"),
            select: owned("Enter"),
            top: owned("g"),
            bottom: owned("G"),
            clear_input: owned("Ctrl+u"),
            tab_next: owned("Right"),
            tab_prev: owned("Left"),
            help: owned("?"),
        }
    }
}

impl Default for ApiConfig {
    fn default() -> (r: Self)
        ensures
            r.base_url@ == "https://api.opendota.com/api"@,
            r.rate_limit_per_minute == 60,
            r.cache_ttl_secs == 300,
            r.cache_max_entries == 256,
            r.max_inflight == 6,
            r.log_requests,
    {
        ApiConfig {
            base_url: owned("https://api.opendota.com/api"),
            rate_limit_per_minute: 60,
            cache_ttl_secs: 300,
            cache_max_entries: 256,
            max_inflight: 6,
            log_requests: true,
        }
    }
}

impl Default for ImageConfig {
    fn default() -> (r: Self)
        ensures
            r.enabled,
            r.protocol@ == "auto"@,
            r.cdn_base@ == "https://cdn.cloudflare.steamstatic.com"@,
    {
        ImageConfig {
            enabled: true,
            protocol: owned("auto"),
            cdn_base: owned("https://cdn.cloudflare.steamstatic.com"),
        }
    }
}

impl Default for UiConfig {
    fn default() -> (r: Self)
        ensures
            r.language@ == "zh"@,
    {
        UiConfig { language: owned("zh") }
    }
}

impl Default for Config {
    fn default() -> (r: Self)
        ensures
            r.theme.name@ == "catppuccin"@,
            r.keybinds.search@ == "/"@,
            r.keybinds.quit@ == "q"@,
            r.keybinds.up@ == "k"@,
            r.keybinds.down@ == "j"@,
            r.keybinds.select@ == "Enter"@,
            r.keybinds.top@ == "g"@,
            r.keybinds.bottom@ == "G"@,
            r.keybinds.clear_input@ == "Ctrl+u"@,
            r.keybinds.tab_next@ == "Right"@,
            r.keybinds.tab_prev@ == "Left"@,
            r.keybinds.help@ == "?"@,
            r.api.base_url@ == "https://api.opendota.com/api"@,
            r.api.rate_limit_per_minute == 60,
            r.api.cache_ttl_secs == 300,
            r.api.cache_max_entries == 256,
            r.api.max_inflight == 6,
            r.api.log_requests,
            r.images.enabled,
            r.images.protocol@ == "auto"@,
            r.images.cdn_base@ == "https://cdn.cloudflare.steamstatic.com"@,
            r.ui.language@ == "zh"@,
    {
        Config {
            theme: ThemeConfig::default(),
            keybinds: Keybinds::default(),
            api: ApiConfig::default(),
            images: ImageConfig::default(),
            ui: UiConfig::default(),
        }
    }
}

/// The file of the settings under the configuration root.
pub open spec fn config_path_text(root: Seq<char>) -> Seq<char> {
    root + app_dir_text() + "/config.toml"@
}

/// The log of recent searches under the configuration root.
pub open spec fn recent_log_path_text(root: Seq<char>) -> Seq<char> {
    root + app_dir_text() + "/recent.jsonl"@
}

/// The request log, which lies beside the settings.
pub open spec fn request_log_path_text(root: Seq<char>) -> Seq<char> {
    root + app_dir_text() + "/tui.log"@
}

/// The directory of cached files under the cache root.
pub open spec fn cache_dir_text(root: Seq<char>) -> Seq<char> {
    root + app_dir_text()
}

fn under_app_dir(root: &str, name: &str) -> (path: String)
    ensures
        path@ == root@ + app_dir_text() + name@,
{
    crate::text::concat3(root, "/dota2_tui", name)
}

/// Where the settings are kept, given the user's configuration root if the
/// system names one.
pub fn config_path(config_root: Option<&str>) -> (r: Result<String, ConfigError>)
    ensures
        match config_root {
            Some(root) => r matches Ok(path) && path@ == config_path_text(root@),
            None => r matches Err(ConfigError::NoConfigDirectory),
        },
{
    match config_root {
        Some(root) => Ok(under_app_dir(root, "/config.toml")),
        None => Err(ConfigError::NoConfigDirectory),
    }
}

/// Where the recent searches are logged.
pub fn recent_log_path(config_root: Option<&str>) -> (r: Result<String, ConfigError>)
    ensures
        match config_root {
            Some(root) => r matches Ok(path) && path@ == recent_log_path_text(root@),
            None => r matches Err(ConfigError::NoConfigDirectory),
        },
{
    match config_root {
        Some(root) => Ok(under_app_dir(root, "/recent.jsonl")),
        None => Err(ConfigError::NoConfigDirectory),
    }
}

/// Where cached files are kept, given the user's cache root if the system
/// names one.
pub fn cache_dir(cache_root: Option<&str>) -> (r: Result<String, ConfigError>)
    ensures
        match cache_root {
            Some(root) => r matches Ok(path) && path@ == cache_dir_text(root@),
            None => r matches Err(ConfigError::NoCacheDirectory),
        },
{
    match cache_root {
        Some(root) => Ok(concat(root, "/dota2_tui")),
        None => Err(ConfigError::NoCacheDirectory),
    }
}

impl ApiConfig {
    /// Where requests are logged: nowhere if logging is off, else beside the
    /// settings, which takes a configuration root.
    pub fn resolve_log_path(&self, config_root: Option<&str>) -> (r: Result<
        Option<String>,
        ConfigError,
    >)
        ensures
            !self.log_requests ==> r matches Ok(None),
            self.log_requests ==> match config_root {
                Some(root) => r matches Ok(Some(path)) && path@ == request_log_path_text(root@),
                None => r matches Err(ConfigError::NoConfigDirectory),
            },
    {
        if !self.log_requests {
            return Ok(None);
        }
        match config_root {
            Some(root) => Ok(Some(under_app_dir(root, "/tui.log"))),
            None => Err(ConfigError::NoConfigDirectory),
        }
    }

    /// The number of requests that may be under way at once: what the
    /// settings say, and never fewer than one.
    pub fn permits(&self) -> (n: usize)
        ensures
            n == if self.max_inflight >= 1 {
                self.max_inflight
            } else {
                1
            },
    {
        if self.max_inflight >= 1 {
            self.max_inflight
        } else {
            1
        }
    }

    /// The time to live of a cached response in milliseconds, as far as the
    /// clock can count.
    pub fn cache_ttl_millis(&self) -> (millis: u64)
        ensures
            millis == if self.cache_ttl_secs * 1000 <= u64::MAX {
                (self.cache_ttl_secs * 1000) as u64
            } else {
                u64::MAX
            },
    {
        if self.cache_ttl_secs <= u64::MAX / 1000 {
            self.cache_ttl_secs * 1000
        } else {
            u64::MAX
        }
    }
}

/// The theme that a name stands for. A name that is not known gives the
/// terminal's own colours.
pub open spec fn theme_of(name: Seq<char>) -> Theme {
    if name == "catppuccin"@ {
        Theme {
            base: Color::Rgb(30, 30, 46),
            text: Color::Rgb(205, 214, 244),
            accent: Color::Rgb(137, 180, 250),
            warn: Color::Rgb(243, 139, 168),
            success: Color::Rgb(166, 227, 161),
        }
    } else if name == "gruvbox"@ {
        Theme {
            base: Color::Rgb(40, 40, 40),
            text: Color::Rgb(235, 219, 178),
            accent: Color::Rgb(250, 189, 47),
            warn: Color::Rgb(251, 73, 52),
            success: Color::Rgb(184, 187, 38),
        }
    } else {
        Theme {
            base: Color::Black,
            text: Color::White,
            accent: Color::Cyan,
            warn: Color::Red,
            success: Color::Green,
        }
    }
}

/// The key that a name stands for: a single ASCII character for itself, or
/// one of the key names in any mix of ASCII case. White space around the
/// name does not count.
pub open spec fn keycode_of(input: Seq<char>) -> Result<KeyCode, ConfigErrorText> {
    let t = trimmed(input);
    let name = lowered(t);
    if t.len() == 1 && (t[0] as u32) < 128 {
        Ok(KeyCode::Char(t[0]))
    } else if name == "enter"@ {
        Ok(KeyCode::Enter)
    } else if name == "tab"@ {
        Ok(KeyCode::Tab)
    } else if name == "esc"@ || name == "escape"@ {
        Ok(KeyCode::Esc)
    } else if name == "backspace"@ {
        Ok(KeyCode::Backspace)
    } else if name == "up"@ {
        Ok(KeyCode::Up)
    } else if name == "down"@ {
        Ok(KeyCode::Down)
    } else if name == "left"@ {
        Ok(KeyCode::Left)
    } else if name == "right"@ {
        Ok(KeyCode::Right)
    } else if name == "home"@ {
        Ok(KeyCode::Home)
    } else if name == "end"@ {
        Ok(KeyCode::End)
    } else if name == "pageup"@ {
        Ok(KeyCode::PageUp)
    } else if name == "pagedown"@ {
        Ok(KeyCode::PageDown)
    } else if name == "insert"@ {
        Ok(KeyCode::Insert)
    } else if name == "delete"@ {
        Ok(KeyCode::Delete)
    } else if name == "space"@ {
        Ok(KeyCode::Char(' '))
    } else {
        Err(ConfigErrorText::UnknownKey(name))
    }
}

/// `held` with the modifier that `name` stands for, in any mix of ASCII
/// case: `ctrl` or `control`, `alt`, `shift`.
pub open spec fn with_modifier(held: KeyModifiers, name: Seq<char>) -> Result<
    KeyModifiers,
    ConfigErrorText,
> {
    let n = lowered(name);
    if n == "ctrl"@ || n == "control"@ {
        Ok(KeyModifiers { control: true, ..held })
    } else if n == "alt"@ {
        Ok(KeyModifiers { alt: true, ..held })
    } else if n == "shift"@ {
        Ok(KeyModifiers { shift: true, ..held })
    } else {
        Err(ConfigErrorText::UnknownModifier(n))
    }
}

/// The modifiers that `names` stand for together, or the error of the first
/// name that stands for none.
pub open spec fn modifiers_of(names: Seq<Seq<char>>) -> Result<KeyModifiers, ConfigErrorText>
    decreases names.len(),
{
    if names.len() == 0 {
        Ok(KeyModifiers::none())
    } else {
        match modifiers_of(names.drop_last()) {
            Ok(held) => with_modifier(held, names.last()),
            Err(e) => Err(e),
        }
    }
}

pub open spec fn is_ascii_upper(c: char) -> bool {
    'A' <= c <= 'Z'
}

/// The key and modifiers that a binding stands for. The binding is trimmed
/// and split at every `+`; the last piece names the key and every piece
/// before it a modifier. A single upper-case letter on its own stands for
/// that letter with shift.
pub open spec fn keycombo_of(input: Seq<char>) -> Result<KeyCombo, ConfigErrorText> {
    let t = trimmed(input);
    let parts = split_on(t, '+');
    if t.len() == 0 {
        Err(ConfigErrorText::EmptyKeybind)
    } else {
        match modifiers_of(parts.drop_last()) {
            Err(e) => Err(e),
            Ok(held) => match keycode_of(parts.last()) {
                Err(e) => Err(e),
                Ok(code) => Ok(
                    KeyCombo {
                        code,
                        modifiers: match code {
                            KeyCode::Char(c) => if parts.len() == 1 && is_ascii_upper(c) {
                                KeyModifiers { shift: true, ..held }
                            } else {
                                held
                            },
                            _ => held,
                        },
                    },
                ),
            },
        }
    }
}

/// Whether a result of parsing is what the specification names.
pub open spec fn agrees<T>(r: Result<T, ConfigError>, expected: Result<T, ConfigErrorText>) -> bool {
    match expected {
        Ok(v) => r == Ok::<T, ConfigError>(v),
        Err(e) => r is Err && r->Err_0@ == e,
    }
}

pub fn parse_keycode(input: &str) -> (r: Result<KeyCode, ConfigError>)
    ensures
        agrees(r, keycode_of(input@)),
{
    let chars = chars_of(input);
    parse_keycode_chars(&chars)
}

fn parse_keycode_chars(chars: &Vec<char>) -> (r: Result<KeyCode, ConfigError>)
    ensures
        agrees(r, keycode_of(chars@)),
{
    let t = trim(chars);
    if t.len() == 1 && (t[0] as u32) < 128 {
        return Ok(KeyCode::Char(t[0]));
    }
    let name = to_lower(&t);
    if is_text(&name, "enter") {
        Ok(KeyCode::Enter)
    } else if is_text(&name, "tab") {
        Ok(KeyCode::Tab)
    } else if is_text(&name, "esc") || is_text(&name, "escape") {
        Ok(KeyCode::Esc)
    } else if is_text(&name, "backspace") {
        Ok(KeyCode::Backspace)
    } else if is_text(&name, "up") {
        Ok(KeyCode::Up)
    } else if is_text(&name, "down") {
        Ok(KeyCode::Down)
    } else if is_text(&name, "left") {
        Ok(KeyCode::Left)
    } else if is_text(&name, "right") {
        Ok(KeyCode::Right)
    } else if is_text(&name, "home") {
        Ok(KeyCode::Home)
    } else if is_text(&name, "end") {
        Ok(KeyCode::End)
    } else if is_text(&name, "pageup") {
        Ok(KeyCode::PageUp)
    } else if is_text(&name, "pagedown") {
        Ok(KeyCode::PageDown)
    } else if is_text(&name, "insert") {
        Ok(KeyCode::Insert)
    } else if is_text(&name, "delete") {
        Ok(KeyCode::Delete)
    } else if is_text(&name, "space") {
        Ok(KeyCode::Char(' '))
    } else {
        Err(ConfigError::UnknownKey(string_from_chars(&name)))
    }
}

fn add_modifier(held: KeyModifiers, name: &Vec<char>) -> (r: Result<KeyModifiers, ConfigError>)
    ensures
        agrees(r, with_modifier(held, name@)),
{
    let n = to_lower(name);
    if is_text(&n, "ctrl") || is_text(&n, "control") {
        Ok(KeyModifiers { control: true, ..held })
    } else if is_text(&n, "alt") {
        Ok(KeyModifiers { alt: true, ..held })
    } else if is_text(&n, "shift") {
        Ok(KeyModifiers { shift: true, ..held })
    } else {
        Err(ConfigError::UnknownModifier(string_from_chars(&n)))
    }
}

pub fn parse_keycombo(input: &str) -> (r: Result<KeyCombo, ConfigError>)
    ensures
        agrees(r, keycombo_of(input@)),
{
    let chars = chars_of(input);
    let t = trim(&chars);
    if t.len() == 0 {
        return Err(ConfigError::EmptyKeybind);
    }
    let parts = split(&t, '+');
    let ghost names = pieces(parts@);
    let last = parts.len() - 1;
    let mut held = KeyModifiers::empty();
    let mut i: usize = 0;
    assert(names.drop_last().take(0) =~= Seq::<Seq<char>>::empty());
    while i < last
        invariant
            i <= last,
            last == parts@.len() - 1,
            names == pieces(parts@),
            names == split_on(trimmed(input@), '+'),
            trimmed(input@).len() > 0,
            modifiers_of(names.drop_last().take(i as int)) == Ok::<KeyModifiers, ConfigErrorText>(
                held,
            ),
        decreases last - i,
    {
        proof {
            let done = names.drop_last().take(i + 1);
            assert(done.drop_last() =~= names.drop_last().take(i as int));
            assert(done.last() == parts@[i as int]@);
            if with_modifier(held, parts@[i as int]@) is Err {
                lemma_modifiers_fail(names.drop_last(), i + 1);
            }
        }
        match add_modifier(held, &parts[i]) {
            Ok(next) => {
                held = next;
            },
            Err(e) => {
                return Err(e);
            },
        }
        i += 1;
    }
    assert(names.drop_last().take(last as int) =~= names.drop_last());
    assert(names.last() == parts@[last as int]@);
    let code = match parse_keycode_chars(&parts[last]) {
        Ok(code) => code,
        Err(e) => {
            return Err(e);
        },
    };
    if last == 0 {
        if let KeyCode::Char(c) = code {
            if 'A' <= c && c <= 'Z' {
                held = KeyModifiers { shift: true, ..held };
            }
        }
    }
    Ok(KeyCombo { code, modifiers: held })
}

/// Once a modifier fails, so does every longer run of modifiers, and with
/// the same error.
proof fn lemma_modifiers_fail(names: Seq<Seq<char>>, k: int)
    requires
        0 <= k <= names.len(),
        modifiers_of(names.take(k)) is Err,
    ensures
        modifiers_of(names) == modifiers_of(names.take(k)),
    decreases names.len() - k,
{
    if k < names.len() {
        assert(names.take(k + 1).drop_last() =~= names.take(k));
        lemma_modifiers_fail(names, k + 1);
    } else {
        assert(names.take(k) =~= names);
    }
}

/// Whether a key that was pressed is the key of a binding. A binding without
/// modifiers takes the key only with none held; one with modifiers takes it
/// with exactly those.
pub open spec fn combo_matches(combo: KeyCombo, code: KeyCode, modifiers: KeyModifiers) -> bool {
    combo.code == code && combo.modifiers == modifiers
}

pub fn matches(combo: KeyCombo, code: KeyCode, modifiers: KeyModifiers) -> (r: bool)
    ensures
        r == combo_matches(combo, code, modifiers),
{
    if combo.code != code {
        return false;
    }
    if combo.modifiers.is_empty() {
        modifiers.is_empty()
    } else {
        combo.modifiers == modifiers
    }
}

/// The bindings that the settings stand for, action by action in the order
/// of the settings; the first binding that cannot be read gives the error.
pub open spec fn keybinds_of(k: Keybinds) -> Result<ResolvedKeybinds, ConfigErrorText> {
    match keycombo_of(k.search@) {
        Err(e) => Err(e),
        Ok(search) => match keycombo_of(k.quit@) {
            Err(e) => Err(e),
            Ok(quit) => match keycombo_of(k.up@) {
                Err(e) => Err(e),
                Ok(up) => match keycombo_of(k.down@) {
                    Err(e) => Err(e),
                    Ok(down) => match keycombo_of(k.select@) {
                        Err(e) => Err(e),
                        Ok(select) => match keycombo_of(k.top@) {
                            Err(e) => Err(e),
                            Ok(top) => match keycombo_of(k.bottom@) {
                                Err(e) => Err(e),
                                Ok(bottom) => match keycombo_of(k.clear_input@) {
                                    Err(e) => Err(e),
                                    Ok(clear_input) => match keycombo_of(k.tab_next@) {
                                        Err(e) => Err(e),
                                        Ok(tab_next) => match keycombo_of(k.tab_prev@) {
                                            Err(e) => Err(e),
                                            Ok(tab_prev) => match keycombo_of(k.help@) {
                                                Err(e) => Err(e),
                                                Ok(help) => Ok(
                                                    ResolvedKeybinds {
                                                        search,
                                                        quit,
                                                        up,
                                                        down,
                                                        select,
                                                        top,
                                                        bottom,
                                                        clear_input,
                                                        tab_next,
                                                        tab_prev,
                                                        help,
                                                    },
                                                ),
                                            },
                                        },
                                    },
                                },
                            },
                        },
                    },
                },
            },
        },
    }
}

impl Config {
    pub fn resolve_theme(&self) -> (theme: Theme)
        ensures
            theme == theme_of(self.theme.name@),
    {
        let name = chars_of(self.theme.name.as_str());
        if is_text(&name, "catppuccin") {
            Theme {
                base: Color::Rgb(30, 30, 46),
                text: Color::Rgb(205, 214, 244),
                accent: Color::Rgb(137, 180, 250),
                warn: Color::Rgb(243, 139, 168),
                success: Color::Rgb(166, 227, 161),
            }
        } else if is_text(&name, "gruvbox") {
            Theme {
                base: Color::Rgb(40, 40, 40),
                text: Color::Rgb(235, 219, 178),
                accent: Color::Rgb(250, 189, 47),
                warn: Color::Rgb(251, 73, 52),
                success: Color::Rgb(184, 187, 38),
            }
        } else {
            Theme {
                base: Color::Black,
                text: Color::White,
                accent: Color::Cyan,
                warn: Color::Red,
                success: Color::Green,
            }
        }
    }

    pub fn resolve_keybinds(&self) -> (r: Result<ResolvedKeybinds, ConfigError>)
        ensures
            agrees(r, keybinds_of(self.keybinds)),
    {
        let search = match parse_keycombo(self.keybinds.search.as_str()) {
            Ok(c) => c,
            Err(e) => {
                return Err(e);
            },
        };
        let quit = match parse_keycombo(self.keybinds.quit.as_str()) {
            Ok(c) => c,
            Err(e) => {
                return Err(e);
            },
        };
        let up = match parse_keycombo(self.keybinds.up.as_str()) {
            Ok(c) => c,
            Err(e) => {
                return Err(e);
            },
        };
        let down = match parse_keycombo(self.keybinds.down.as_str()) {
            Ok(c) => c,
            Err(e) => {
                return Err(e);
            },
        };
        let select = match parse_keycombo(self.keybinds.select.as_str()) {
            Ok(c) => c,
            Err(e) => {
                return Err(e);
            },
        };
        let top = match parse_keycombo(self.keybinds.top.as_str()) {
            Ok(c) => c,
            Err(e) => {
                return Err(e);
            },
        };
        let bottom = match parse_keycombo(self.keybinds.bottom.as_str()) {
            Ok(c) => c,
            Err(e) => {
                return Err(e);
            },
        };
        let clear_input = match parse_keycombo(self.keybinds.clear_input.as_str()) {
            Ok(c) => c,
            Err(e) => {
                return Err(e);
            },
        };
        let tab_next = match parse_keycombo(self.keybinds.tab_next.as_str()) {
            Ok(c) => c,
            Err(e) => {
                return Err(e);
            },
        };
        let tab_prev = match parse_keycombo(self.keybinds.tab_prev.as_str()) {
            Ok(c) => c,
            Err(e) => {
                return Err(e);
            },
        };
        let help = match parse_keycombo(self.keybinds.help.as_str()) {
            Ok(c) => c,
            Err(e) => {
                return Err(e);
            },
        };
        Ok(
            ResolvedKeybinds {
                search,
                quit,
                up,
                down,
                select,
                top,
                bottom,
                clear_input,
                tab_next,
                tab_prev,
                help,
            },
        )
    }
}

} // verus!
