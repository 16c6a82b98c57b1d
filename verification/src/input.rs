//! What a key does: how it changes the state, and what it asks the caller to
//! fetch. Nothing here waits for a key or starts a fetch.

use crate::api::elapsed;
use crate::app::{App, InputMode, ListState, SearchEntry};
use crate::config::{combo_matches, KeyCode, KeyModifiers, ResolvedKeybinds};
use crate::i18n::{
    status_invalid_id_text, status_loading_match_text, status_loading_player_text,
    status_need_id_text, status_search_cancelled_text, I18n, Language,
};
use crate::models::PlayerMatch;
use crate::text::{
    chars_of, decimal, decimal_string, lowered, owned, parse_unsigned, parse_unsigned_chars,
    push_decimal, starts_with, string_from_chars, to_lower, trim, trimmed,
};
use vstd::prelude::*;

verus! {

broadcast use vstd::std_specs::hash::group_hash_axioms;

/// The number from which the platform counts its 64-bit ids: such an id is
/// this number plus the account id.
pub const STEAMID64_BASE: u64 = 76561197960265728;

/// The shortest time between two moves through the match list, in
/// milliseconds.
pub const NAV_DEBOUNCE_MS: u64 = 80;

#[derive(Debug, Clone, Copy, PartialEq, Eq, Structural)]
pub enum KeyEventKind {
    Press,
    Repeat,
    Release,
}

#[derive(Debug, Clone, Copy, PartialEq, Eq, Structural)]
pub struct KeyEvent {
    pub code: KeyCode,
    pub modifiers: KeyModifiers,
    pub kind: KeyEventKind,
}

/// What the terminal reports. `Other` stands for all that is no key.
#[derive(Debug, Clone, Copy, PartialEq, Eq, Structural)]
pub enum Event {
    Key(KeyEvent),
    Other,
}

/// What a key asks the caller to fetch.
#[derive(Debug, Clone, Copy, PartialEq, Eq, Structural)]
pub enum Command {
    /// The profile and the matches of an account.
    Search { account_id: u32 },
    /// The detail of a match.
    MatchDetail { match_id: u64 },
}

/// The account that an input names. The input is trimmed and read as a
/// decimal number of 64 bits. A number from the platform's base on is a
/// platform id and names the account that lies that far above the base; a
/// smaller number is an account id. Either way the account has to fit in 32
/// bits, and an input whose account does not is refused.
pub open spec fn account_id_of(input: Seq<char>) -> Result<u32, Seq<char>> {
    match parse_unsigned(trimmed(input), u64::MAX as nat) {
        None => Err("SteamID must be numeric"@),
        Some(value) => {
            let account: nat = if value >= STEAMID64_BASE {
                (value - STEAMID64_BASE) as nat
            } else {
                value
            };
            if account <= u32::MAX {
                Ok(account as u32)
            } else {
                Err("SteamID too large"@)
            }
        },
    }
}

pub fn parse_account_id(input: &str) -> (r: Result<u32, String>)
    ensures
        match account_id_of(input@) {
            Ok(id) => r == Ok::<u32, String>(id),
            Err(text) => r is Err && r->Err_0@ == text,
        },
{
    let chars = chars_of(input);
    let t = trim(&chars);
    let value: u64 = match parse_unsigned_chars(&t, u64::MAX) {
        Some(value) => value,
        None => {
            return Err(owned("SteamID must be numeric"));
        },
    };
    let account: u64 = if value >= STEAMID64_BASE {
        value - STEAMID64_BASE
    } else {
        value
    };
    if account <= 0xffff_ffff {
        Ok(account as u32)
    } else {
        Err(owned("SteamID too large"))
    }
}

/// The row after the selected one, the first row after the last or where
/// none is selected; in an empty list the cursor stays.
pub open spec fn next_row(total: nat, selected: Option<usize>) -> Option<usize> {
    if total == 0 {
        selected
    } else {
        match selected {
            Some(i) => if i + 1 < total {
                Some((i + 1) as usize)
            } else {
                Some(0)
            },
            None => Some(0),
        }
    }
}

/// The row before the selected one, the last row before the first or where
/// none is selected; in an empty list the cursor stays.
pub open spec fn prev_row(total: nat, selected: Option<usize>) -> Option<usize> {
    if total == 0 {
        selected
    } else {
        match selected {
            Some(i) => if i > 0 {
                Some((i - 1) as usize)
            } else {
                Some((total - 1) as usize)
            },
            None => Some((total - 1) as usize),
        }
    }
}

fn step_next(total: usize, selected: Option<usize>) -> (r: Option<usize>)
    ensures
        r == next_row(total as nat, selected),
{
    if total == 0 {
        return selected;
    }
    match selected {
        Some(i) => if i < total - 1 {
            Some(i + 1)
        } else {
            Some(0)
        },
        None => Some(0),
    }
}

fn step_prev(total: usize, selected: Option<usize>) -> (r: Option<usize>)
    ensures
        r == prev_row(total as nat, selected),
{
    if total == 0 {
        return selected;
    }
    match selected {
        Some(i) => if i > 0 {
            Some(i - 1)
        } else {
            Some(total - 1)
        },
        None => Some(total - 1),
    }
}

pub fn select_next_match(app: &mut App)
    ensures
        *final(app) == (App {
            match_state: ListState {
                selected: next_row(old(app).matches@.len(), old(app).match_state.selected),
            },
            ..*old(app)
        }),
{
    let next = step_next(app.matches.len(), app.match_state.selected());
    app.match_state.select(next);
}

pub fn select_prev_match(app: &mut App)
    ensures
        *final(app) == (App {
            match_state: ListState {
                selected: prev_row(old(app).matches@.len(), old(app).match_state.selected),
            },
            ..*old(app)
        }),
{
    let prev = step_prev(app.matches.len(), app.match_state.selected());
    app.match_state.select(prev);
}

/// Moves the cursor of the recent searches on by one, and makes it the
/// active cursor; does nothing where there are no recent searches.
pub fn select_next_recent(app: &mut App)
    ensures
        *final(app) == if old(app).recent_searches@.len() == 0 {
            *old(app)
        } else {
            App {
                recent_active: true,
                recent_index: next_row(old(app).recent_searches@.len(), old(app).recent_index),
                ..*old(app)
            }
        },
{
    if app.recent_searches.len() == 0 {
        return;
    }
    app.recent_active = true;
    app.recent_index = step_next(app.recent_searches.len(), app.recent_index);
}

/// Moves the cursor of the recent searches back by one, and makes it the
/// active cursor; does nothing where there are no recent searches.
pub fn select_prev_recent(app: &mut App)
    ensures
        *final(app) == if old(app).recent_searches@.len() == 0 {
            *old(app)
        } else {
            App {
                recent_active: true,
                recent_index: prev_row(old(app).recent_searches@.len(), old(app).recent_index),
                ..*old(app)
            }
        },
{
    if app.recent_searches.len() == 0 {
        return;
    }
    app.recent_active = true;
    app.recent_index = step_prev(app.recent_searches.len(), app.recent_index);
}

/// Whether the list may be moved through at `now`: not sooner than the
/// debounce time after the last move.
pub open spec fn may_navigate(last_nav: u64, now: u64) -> bool {
    elapsed(now, last_nav) >= NAV_DEBOUNCE_MS
}

/// Says whether the list may be moved through at `now`, and where it may,
/// notes `now` as the time of the last move.
pub fn can_navigate(app: &mut App, now: u64) -> (r: bool)
    ensures
        r == may_navigate(old(app).last_nav, now),
        *final(app) == (App {
            last_nav: if r {
                now
            } else {
                old(app).last_nav
            },
            ..*old(app)
        }),
{
    let passed = if now >= app.last_nav {
        now - app.last_nav
    } else {
        0
    };
    if passed < NAV_DEBOUNCE_MS {
        return false;
    }
    app.last_nav = now;
    true
}

/// Whether a recent search answers to what was typed: its name begins with
/// it, whatever the ASCII case, or its account id does.
pub open spec fn answers(entry: SearchEntry, typed: Seq<char>) -> bool {
    typed.is_prefix_of(lowered(entry.personaname@)) || typed.is_prefix_of(
        decimal(entry.account_id as nat),
    )
}

/// The first of `recent` from `from` on that answers to `typed`.
pub open spec fn first_answer(recent: Seq<SearchEntry>, typed: Seq<char>, from: int) -> Option<int>
    decreases recent.len() - from,
{
    if from < 0 || from >= recent.len() {
        None
    } else if answers(recent[from], typed) {
        Some(from)
    } else {
        first_answer(recent, typed, from + 1)
    }
}

/// The recent search that completes the input: the first one where nothing
/// is typed, else the first that answers to the trimmed, lower-cased input.
pub open spec fn completion(recent: Seq<SearchEntry>, input: Seq<char>) -> Option<int> {
    let typed = lowered(trimmed(input));
    if recent.len() == 0 {
        None
    } else if typed.len() == 0 {
        Some(0)
    } else {
        first_answer(recent, typed, 0)
    }
}

fn entry_answers(entry: &SearchEntry, typed: &Vec<char>) -> (r: bool)
    ensures
        r == answers(*entry, typed@),
{
    let name = to_lower(&chars_of(entry.personaname.as_str()));
    if starts_with(&name, typed) {
        return true;
    }
    let mut id: Vec<char> = Vec::new();
    push_decimal(entry.account_id as u64, &mut id);
    assert(id@ =~= decimal(entry.account_id as nat));
    starts_with(&id, typed)
}

pub fn autocomplete_recent(app: &App) -> (r: Option<&SearchEntry>)
    ensures
        r == match completion(app.recent_searches@, app.input@) {
            Some(i) => Some(&app.recent_searches@[i]),
            None => None,
        },
{
    if app.recent_searches.len() == 0 {
        return None;
    }
    let typed = to_lower(&trim(&chars_of(app.input.as_str())));
    if typed.len() == 0 {
        return Some(&app.recent_searches[0]);
    }
    let mut i: usize = 0;
    while i < app.recent_searches.len()
        invariant
            i <= app.recent_searches@.len(),
            app.recent_searches@.len() > 0,
            typed@.len() > 0,
            typed@ == lowered(trimmed(app.input@)),
            first_answer(app.recent_searches@, typed@, 0) == first_answer(
                app.recent_searches@,
                typed@,
                i as int,
            ),
        decreases app.recent_searches.len() - i,
    {
        if entry_answers(&app.recent_searches[i], &typed) {
            return Some(&app.recent_searches[i]);
        }
        i += 1;
    }
    None
}

/// The state once a search for `account_id` has begun: everything of the
/// last player is gone, nothing is being fetched but the two halves of the
/// search, and the pictures on screen are to be cleared.
pub open spec fn search_started(pre: App, post: App, account_id: u32, lang: Language) -> bool {
    &&& post == (App {
        loading: true,
        detail_loading: false,
        account_id: Some(account_id),
        profile: None,
        matches: post.matches,
        match_state: ListState { selected: Some(0usize) },
        match_detail: None,
        avatar_url: None,
        avatar_loading: false,
        player_avatar_requests: post.player_avatar_requests,
        pending_player_avatar_ids: post.pending_player_avatar_ids,
        image_reset: true,
        image_inflight: post.image_inflight,
        net_total: 2,
        net_done: 0,
        net_inflight: 2,
        net_last_ms: None,
        status: post.status,
        ..pre
    })
    &&& post.matches@ == Seq::<PlayerMatch>::empty()
    &&& post.player_avatar_requests@ == Set::<u32>::empty()
    &&& post.pending_player_avatar_ids@ == Seq::<u32>::empty()
    &&& post.image_inflight@ == Set::<Seq<char>>::empty()
    &&& post.status@ == status_loading_player_text(lang, account_id)
}

pub fn start_search_with_id(app: &mut App, i18n: &I18n, account_id: u32) -> (out: Command)
    ensures
        search_started(*old(app), *final(app), account_id, i18n.language()),
        out == (Command::Search { account_id }),
{
    app.loading = true;
    app.detail_loading = false;
    app.account_id = Some(account_id);
    app.profile = None;
    app.clear_matches();
    app.avatar_url = None;
    app.avatar_loading = false;
    app.player_avatar_requests.clear();
    app.pending_player_avatar_ids.clear();
    app.image_reset = true;
    app.image_inflight.clear();
    app.net_total = 2;
    app.net_done = 0;
    app.net_inflight = 2;
    app.net_last_ms = None;
    app.status = i18n.status_loading_player(account_id);
    Command::Search { account_id }
}

/// The state and the command after the input was sent off as a search: an
/// empty input asks for an id, one that names no account is refused, and
/// one that names an account begins the search for it.
pub open spec fn input_submitted(pre: App, post: App, lang: Language, out: Option<Command>) -> bool {
    if trimmed(pre.input@).len() == 0 {
        &&& post == (App { status: post.status, ..pre })
        &&& post.status@ == status_need_id_text(lang)
        &&& out is None
    } else {
        match account_id_of(pre.input@) {
            Ok(account_id) => {
                &&& search_started(pre, post, account_id, lang)
                &&& out == Some(Command::Search { account_id })
            },
            Err(_) => {
                &&& post == (App { status: post.status, ..pre })
                &&& post.status@ == status_invalid_id_text(lang)
                &&& out is None
            },
        }
    }
}

pub fn start_search_from_input(app: &mut App, i18n: &I18n) -> (out: Option<Command>)
    ensures
        input_submitted(*old(app), *final(app), i18n.language(), out),
{
    let t = trim(&chars_of(app.input.as_str()));
    if t.len() == 0 {
        app.status = owned(i18n.status_need_id());
        return None;
    }
    match parse_account_id(app.input.as_str()) {
        Ok(account_id) => Some(start_search_with_id(app, i18n, account_id)),
        Err(_) => {
            app.status = owned(i18n.status_invalid_id());
            None
        },
    }
}

/// A text without its last character, if it has one.
pub open spec fn without_last(s: Seq<char>) -> Seq<char> {
    if s.len() > 0 {
        s.drop_last()
    } else {
        s
    }
}

/// What a key means while the search box is being typed in.
#[derive(Debug, Clone, Copy, PartialEq, Eq, Structural)]
pub enum EditingAction {
    ToggleHelp,
    Complete,
    Cancel,
    Submit,
    Clear,
    Backspace,
    Type(char),
    Nothing,
}

/// What a key means while the search box is being typed in. In this order:
/// the help key opens or closes the help; tab completes the input from the
/// recent searches; escape leaves the box; the select key sends the input
/// off; the clear key empties it; backspace takes its last character off; a
/// character typed without control is appended. Every other key means
/// nothing.
pub open spec fn editing_action(key: KeyEvent, binds: ResolvedKeybinds) -> EditingAction {
    if combo_matches(binds.help, key.code, key.modifiers) {
        EditingAction::ToggleHelp
    } else if key.code == KeyCode::Tab {
        EditingAction::Complete
    } else if key.code == KeyCode::Esc {
        EditingAction::Cancel
    } else if combo_matches(binds.select, key.code, key.modifiers) {
        EditingAction::Submit
    } else if combo_matches(binds.clear_input, key.code, key.modifiers) {
        EditingAction::Clear
    } else {
        match key.code {
            KeyCode::Backspace => EditingAction::Backspace,
            KeyCode::Char(c) => if key.modifiers.control {
                EditingAction::Nothing
            } else {
                EditingAction::Type(c)
            },
            _ => EditingAction::Nothing,
        }
    }
}

/// The state and the command after an action in the search box.
pub open spec fn editing_applied(
    pre: App,
    post: App,
    action: EditingAction,
    lang: Language,
    out: Option<Command>,
) -> bool {
    match action {
        EditingAction::ToggleHelp => post == (App {
            show_help: !pre.show_help,
            image_reset: true,
            ..pre
        }) && out is None,
        EditingAction::Complete => {
            &&& out is None
            &&& match completion(pre.recent_searches@, pre.input@) {
                Some(i) => post == (App { input: post.input, ..pre }) && post.input@ == decimal(
                    pre.recent_searches@[i].account_id as nat,
                ),
                None => post == pre,
            }
        },
        EditingAction::Cancel => {
            &&& post == (App { input_mode: InputMode::Normal, status: post.status, ..pre })
            &&& post.status@ == status_search_cancelled_text(lang)
            &&& out is None
        },
        EditingAction::Submit => if out is Some {
            input_submitted(App { input_mode: InputMode::Normal, ..pre }, post, lang, out)
        } else {
            input_submitted(pre, post, lang, out)
        },
        EditingAction::Clear => {
            &&& post == (App { input: post.input, ..pre })
            &&& post.input@ == Seq::<char>::empty()
            &&& out is None
        },
        EditingAction::Backspace => {
            &&& post == (App { input: post.input, ..pre })
            &&& post.input@ == without_last(pre.input@)
            &&& out is None
        },
        EditingAction::Type(c) => {
            &&& post == (App { input: post.input, ..pre })
            &&& post.input@ == pre.input@.push(c)
            &&& out is None
        },
        EditingAction::Nothing => post == pre && out is None,
    }
}

/// The state and the command after a key was pressed while the search box
/// is being typed in.
pub open spec fn editing_key_applied(
    pre: App,
    post: App,
    key: KeyEvent,
    binds: ResolvedKeybinds,
    lang: Language,
    out: Option<Command>,
) -> bool {
    editing_applied(pre, post, editing_action(key, binds), lang, out)
}

fn read_editing_key(key: KeyEvent, keybinds: &ResolvedKeybinds) -> (action: EditingAction)
    ensures
        action == editing_action(key, *keybinds),
{
    if crate::config::matches(keybinds.help, key.code, key.modifiers) {
        EditingAction::ToggleHelp
    } else if key.code == KeyCode::Tab {
        EditingAction::Complete
    } else if key.code == KeyCode::Esc {
        EditingAction::Cancel
    } else if crate::config::matches(keybinds.select, key.code, key.modifiers) {
        EditingAction::Submit
    } else if crate::config::matches(keybinds.clear_input, key.code, key.modifiers) {
        EditingAction::Clear
    } else {
        match key.code {
            KeyCode::Backspace => EditingAction::Backspace,
            KeyCode::Char(c) => if key.modifiers.control {
                EditingAction::Nothing
            } else {
                EditingAction::Type(c)
            },
            _ => EditingAction::Nothing,
        }
    }
}

fn complete_input(app: &mut App)
    ensures
        editing_applied(*old(app), *final(app), EditingAction::Complete, Language::En, None),
{
    let found: Option<u32> = match autocomplete_recent(app) {
        Some(entry) => Some(entry.account_id),
        None => None,
    };
    if let Some(account_id) = found {
        app.input = decimal_string(account_id as u64);
    }
}

fn submit_input(app: &mut App, i18n: &I18n) -> (out: Option<Command>)
    ensures
        editing_applied(*old(app), *final(app), EditingAction::Submit, i18n.language(), out),
{
    let out = start_search_from_input(app, i18n);
    if out.is_some() {
        app.input_mode = InputMode::Normal;
    }
    out
}

fn edit_input(app: &mut App, typed: Option<char>)
    ensures
        editing_applied(
            *old(app),
            *final(app),
            match typed {
                Some(c) => EditingAction::Type(c),
                None => EditingAction::Backspace,
            },
            Language::En,
            None,
        ),
{
    let mut chars = chars_of(app.input.as_str());
    match typed {
        Some(c) => {
            chars.push(c);
        },
        None => {
            chars.pop();
            assert(chars@ =~= without_last(old(app).input@));
        },
    }
    app.input = string_from_chars(&chars);
}

fn edit_plainly(app: &mut App, action: EditingAction, i18n: &I18n)
    requires
        action is ToggleHelp || action is Cancel || action is Clear || action is Nothing,
    ensures
        editing_applied(*old(app), *final(app), action, i18n.language(), None),
{
    match action {
        EditingAction::ToggleHelp => {
            app.show_help = !app.show_help;
            app.image_reset = true;
        },
        EditingAction::Cancel => {
            app.input_mode = InputMode::Normal;
            app.status = owned(i18n.status_search_cancelled());
        },
        EditingAction::Clear => {
            app.input = String::new();
        },
        _ => {},
    }
}

pub fn handle_editing_key(key: KeyEvent, app: &mut App, keybinds: &ResolvedKeybinds, i18n: &I18n) -> (out:
    Option<Command>)
    ensures
        editing_key_applied(*old(app), *final(app), key, *keybinds, i18n.language(), out),
{
    let action = read_editing_key(key, keybinds);
    match action {
        EditingAction::Complete => {
            complete_input(app);
            None
        },
        EditingAction::Submit => submit_input(app, i18n),
        EditingAction::Backspace => {
            edit_input(app, None);
            None
        },
        EditingAction::Type(c) => {
            edit_input(app, Some(c));
            None
        },
        _ => {
            edit_plainly(app, action, i18n);
            None
        },
    }
}

/// The state after a key that moves through the match list: the cursor
/// moves if the list may be moved through at `now`, and the cursor of the
/// recent searches is no longer the active one.
pub open spec fn moved(pre: App, post: App, now: u64, target: Option<usize>) -> bool {
    post == (App {
        last_nav: if may_navigate(pre.last_nav, now) {
            now
        } else {
            pre.last_nav
        },
        match_state: ListState {
            selected: if may_navigate(pre.last_nav, now) {
                target
            } else {
                pre.match_state.selected
            },
        },
        recent_active: false,
        ..pre
    })
}

/// The state once the detail of a match has been asked for.
pub open spec fn detail_started(pre: App, post: App, match_id: u64, lang: Language) -> bool {
    &&& post == (App {
        detail_loading: true,
        net_total: 1,
        net_done: 0,
        net_inflight: 1,
        net_last_ms: None,
        status: post.status,
        ..pre
    })
    &&& post.status@ == status_loading_match_text(lang, match_id)
}

/// The state and the command after the select key outside the search box:
/// a search for the recent search under the active cursor, or else the
/// detail of the match under the cursor, or else nothing.
pub open spec fn selection_made(pre: App, post: App, lang: Language, out: Option<Command>) -> bool {
    let recent: Option<u32> = if pre.recent_active {
        match pre.recent_index {
            Some(i) => if i < pre.recent_searches@.len() {
                Some(pre.recent_searches@[i as int].account_id)
            } else {
                None
            },
            None => None,
        }
    } else {
        None
    };
    match recent {
        Some(account_id) => {
            &&& search_started(
                App { input: post.input, recent_active: false, ..pre },
                post,
                account_id,
                lang,
            )
            &&& post.input@ == decimal(account_id as nat)
            &&& out == Some(Command::Search { account_id })
        },
        None => match pre.match_state.selected {
            Some(i) => if i < pre.matches@.len() {
                &&& detail_started(pre, post, pre.matches@[i as int].match_id, lang)
                &&& out == Some(Command::MatchDetail { match_id: pre.matches@[i as int].match_id })
            } else {
                post == pre && out is None
            },
            None => post == pre && out is None,
        },
    }
}

/// The tab after `index`, of three tabs.
pub open spec fn next_tab(index: usize) -> usize {
    ((index + 1) % 3) as usize
}

/// The tab before `index`, of three tabs.
pub open spec fn prev_tab(index: usize) -> usize {
    if index == 0 {
        2
    } else {
        (index - 1) as usize
    }
}

/// What a key means outside the search box.
#[derive(Debug, Clone, Copy, PartialEq, Eq, Structural)]
pub enum NormalAction {
    CloseHelp,
    Quit,
    OpenHelp,
    OpenSearch,
    Down,
    Up,
    Top,
    Bottom,
    NextRecent,
    PrevRecent,
    Select,
    NextTab,
    PrevTab,
    Cancel,
    Nothing,
}

/// What a key means outside the search box. While the help is open, only
/// escape and the help key mean anything: they close it. Else, in this
/// order: quit, help, search, down, up, top, bottom, control with tab or
/// back-tab for the recent searches, select, next tab, previous tab, and
/// escape.
pub open spec fn normal_action(show_help: bool, key: KeyEvent, binds: ResolvedKeybinds) -> NormalAction {
    if show_help {
        if key.code == KeyCode::Esc || combo_matches(binds.help, key.code, key.modifiers) {
            NormalAction::CloseHelp
        } else {
            NormalAction::Nothing
        }
    } else if combo_matches(binds.quit, key.code, key.modifiers) {
        NormalAction::Quit
    } else if combo_matches(binds.help, key.code, key.modifiers) {
        NormalAction::OpenHelp
    } else if combo_matches(binds.search, key.code, key.modifiers) {
        NormalAction::OpenSearch
    } else if combo_matches(binds.down, key.code, key.modifiers) {
        NormalAction::Down
    } else if combo_matches(binds.up, key.code, key.modifiers) {
        NormalAction::Up
    } else if combo_matches(binds.top, key.code, key.modifiers) {
        NormalAction::Top
    } else if combo_matches(binds.bottom, key.code, key.modifiers) {
        NormalAction::Bottom
    } else if key.code == KeyCode::Tab && key.modifiers.control {
        NormalAction::NextRecent
    } else if key.code == KeyCode::BackTab && key.modifiers.control {
        NormalAction::PrevRecent
    } else if combo_matches(binds.select, key.code, key.modifiers) {
        NormalAction::Select
    } else if combo_matches(binds.tab_next, key.code, key.modifiers) {
        NormalAction::NextTab
    } else if combo_matches(binds.tab_prev, key.code, key.modifiers) {
        NormalAction::PrevTab
    } else if key.code == KeyCode::Esc {
        NormalAction::Cancel
    } else {
        NormalAction::Nothing
    }
}

/// Where a key that moves through the match list sends the cursor.
pub open spec fn cursor_target(action: NormalAction, total: nat, selected: Option<usize>) -> Option<
    usize,
> {
    match action {
        NormalAction::Down => next_row(total, selected),
        NormalAction::Up => prev_row(total, selected),
        NormalAction::Top => if total > 0 {
            Some(0usize)
        } else {
            selected
        },
        NormalAction::Bottom => if total > 0 {
            Some((total - 1) as usize)
        } else {
            selected
        },
        _ => selected,
    }
}

/// The state and the command after an action outside the search box.
pub open spec fn normal_applied(
    pre: App,
    post: App,
    action: NormalAction,
    lang: Language,
    now: u64,
    out: Option<Command>,
) -> bool {
    match action {
        NormalAction::CloseHelp => post == (App { show_help: false, image_reset: true, ..pre })
            && out is None,
        NormalAction::Quit => post == (App { should_quit: true, ..pre }) && out is None,
        NormalAction::OpenHelp => post == (App { show_help: true, image_reset: true, ..pre })
            && out is None,
        NormalAction::OpenSearch => {
            &&& post == (App { input_mode: InputMode::Editing, status: post.status, ..pre })
            &&& post.status@ == status_need_id_text(lang)
            &&& out is None
        },
        NormalAction::Down | NormalAction::Up | NormalAction::Top | NormalAction::Bottom => moved(
            pre,
            post,
            now,
            cursor_target(action, pre.matches@.len(), pre.match_state.selected),
        ) && out is None,
        NormalAction::NextRecent => {
            &&& out is None
            &&& post == if pre.recent_searches@.len() == 0 {
                pre
            } else {
                App {
                    recent_active: true,
                    recent_index: next_row(pre.recent_searches@.len(), pre.recent_index),
                    ..pre
                }
            }
        },
        NormalAction::PrevRecent => {
            &&& out is None
            &&& post == if pre.recent_searches@.len() == 0 {
                pre
            } else {
                App {
                    recent_active: true,
                    recent_index: prev_row(pre.recent_searches@.len(), pre.recent_index),
                    ..pre
                }
            }
        },
        NormalAction::Select => selection_made(pre, post, lang, out),
        NormalAction::NextTab => post == (App {
            tab_index: next_tab(pre.tab_index),
            image_reset: true,
            ..pre
        }) && out is None,
        NormalAction::PrevTab => post == (App {
            tab_index: prev_tab(pre.tab_index),
            image_reset: true,
            ..pre
        }) && out is None,
        NormalAction::Cancel => {
            &&& post == (App { input_mode: InputMode::Normal, status: post.status, ..pre })
            &&& post.status@ == status_search_cancelled_text(lang)
            &&& out is None
        },
        NormalAction::Nothing => post == pre && out is None,
    }
}

/// The state and the command after a key was pressed outside the search
/// box.
pub open spec fn normal_key_applied(
    pre: App,
    post: App,
    key: KeyEvent,
    binds: ResolvedKeybinds,
    lang: Language,
    now: u64,
    out: Option<Command>,
) -> bool {
    normal_applied(pre, post, normal_action(pre.show_help, key, binds), lang, now, out)
}

fn read_normal_key(show_help: bool, key: KeyEvent, keybinds: &ResolvedKeybinds) -> (action:
    NormalAction)
    ensures
        action == normal_action(show_help, key, *keybinds),
{
    if show_help {
        if key.code == KeyCode::Esc || crate::config::matches(
            keybinds.help,
            key.code,
            key.modifiers,
        ) {
            NormalAction::CloseHelp
        } else {
            NormalAction::Nothing
        }
    } else if crate::config::matches(keybinds.quit, key.code, key.modifiers) {
        NormalAction::Quit
    } else if crate::config::matches(keybinds.help, key.code, key.modifiers) {
        NormalAction::OpenHelp
    } else if crate::config::matches(keybinds.search, key.code, key.modifiers) {
        NormalAction::OpenSearch
    } else if crate::config::matches(keybinds.down, key.code, key.modifiers) {
        NormalAction::Down
    } else if crate::config::matches(keybinds.up, key.code, key.modifiers) {
        NormalAction::Up
    } else if crate::config::matches(keybinds.top, key.code, key.modifiers) {
        NormalAction::Top
    } else if crate::config::matches(keybinds.bottom, key.code, key.modifiers) {
        NormalAction::Bottom
    } else if key.code == KeyCode::Tab && key.modifiers.control {
        NormalAction::NextRecent
    } else if key.code == KeyCode::BackTab && key.modifiers.control {
        NormalAction::PrevRecent
    } else if crate::config::matches(keybinds.select, key.code, key.modifiers) {
        NormalAction::Select
    } else if crate::config::matches(keybinds.tab_next, key.code, key.modifiers) {
        NormalAction::NextTab
    } else if crate::config::matches(keybinds.tab_prev, key.code, key.modifiers) {
        NormalAction::PrevTab
    } else if key.code == KeyCode::Esc {
        NormalAction::Cancel
    } else {
        NormalAction::Nothing
    }
}

fn move_cursor(app: &mut App, now: u64, target: Option<usize>)
    ensures
        moved(*old(app), *final(app), now, target),
{
    if can_navigate(app, now) {
        app.match_state.select(target);
    }
    app.recent_active = false;
}

fn make_selection(app: &mut App, i18n: &I18n) -> (out: Option<Command>)
    ensures
        selection_made(*old(app), *final(app), i18n.language(), out),
{
    if app.recent_active {
        if let Some(index) = app.recent_index {
            if index < app.recent_searches.len() {
                let account_id = app.recent_searches[index].account_id;
                app.input = decimal_string(account_id as u64);
                app.recent_active = false;
                return Some(start_search_with_id(app, i18n, account_id));
            }
        }
    }
    let chosen: Option<u64> = match app.selected_match() {
        Some(m) => Some(m.match_id),
        None => None,
    };
    if let Some(match_id) = chosen {
        app.detail_loading = true;
        app.net_total = 1;
        app.net_done = 0;
        app.net_inflight = 1;
        app.net_last_ms = None;
        app.status = i18n.status_loading_match(match_id);
        return Some(Command::MatchDetail { match_id });
    }
    None
}

fn target_of(action: NormalAction, total: usize, selected: Option<usize>) -> (r: Option<usize>)
    ensures
        r == cursor_target(action, total as nat, selected),
{
    match action {
        NormalAction::Down => step_next(total, selected),
        NormalAction::Up => step_prev(total, selected),
        NormalAction::Top => if total > 0 {
            Some(0)
        } else {
            selected
        },
        NormalAction::Bottom => if total > 0 {
            Some(total - 1)
        } else {
            selected
        },
        _ => selected,
    }
}

fn switch_tab(app: &mut App, forward: bool)
    ensures
        *final(app) == (App {
            tab_index: if forward {
                next_tab(old(app).tab_index)
            } else {
                prev_tab(old(app).tab_index)
            },
            image_reset: true,
            ..*old(app)
        }),
{
    if forward {
        app.tab_index = (app.tab_index % 3 + 1) % 3;
    } else if app.tab_index == 0 {
        app.tab_index = 2;
    } else {
        app.tab_index = app.tab_index - 1;
    }
    app.image_reset = true;
}

pub fn handle_normal_key(
    key: KeyEvent,
    app: &mut App,
    keybinds: &ResolvedKeybinds,
    i18n: &I18n,
    now: u64,
) -> (out: Option<Command>)
    ensures
        normal_key_applied(*old(app), *final(app), key, *keybinds, i18n.language(), now, out),
{
    let action = read_normal_key(app.show_help, key, keybinds);
    match action {
        NormalAction::CloseHelp => {
            app.show_help = false;
            app.image_reset = true;
            None
        },
        NormalAction::Quit => {
            app.should_quit = true;
            None
        },
        NormalAction::OpenHelp => {
            app.show_help = true;
            app.image_reset = true;
            None
        },
        NormalAction::OpenSearch => {
            app.input_mode = InputMode::Editing;
            app.status = owned(i18n.status_need_id());
            None
        },
        NormalAction::Down | NormalAction::Up | NormalAction::Top | NormalAction::Bottom => {
            let target = target_of(action, app.matches.len(), app.match_state.selected());
            move_cursor(app, now, target);
            None
        },
        NormalAction::NextRecent => {
            select_next_recent(app);
            None
        },
        NormalAction::PrevRecent => {
            select_prev_recent(app);
            None
        },
        NormalAction::Select => make_selection(app, i18n),
        NormalAction::NextTab => {
            switch_tab(app, true);
            None
        },
        NormalAction::PrevTab => {
            switch_tab(app, false);
            None
        },
        NormalAction::Cancel => {
            app.input_mode = InputMode::Normal;
            app.status = owned(i18n.status_search_cancelled());
            None
        },
        NormalAction::Nothing => None,
    }
}

/// The state and the command after an event: a key that was pressed goes to
/// the search box while it is being typed in and to the rest of the screen
/// otherwise; everything else is passed over.
pub open spec fn event_applied(
    pre: App,
    post: App,
    event: Event,
    binds: ResolvedKeybinds,
    lang: Language,
    now: u64,
    out: Option<Command>,
) -> bool {
    match event {
        Event::Key(key) => if key.kind == KeyEventKind::Press {
            match pre.input_mode {
                InputMode::Editing => editing_key_applied(pre, post, key, binds, lang, out),
                InputMode::Normal => normal_key_applied(pre, post, key, binds, lang, now, out),
            }
        } else {
            post == pre && out is None
        },
        Event::Other => post == pre && out is None,
    }
}

pub fn handle_event(
    event: Event,
    app: &mut App,
    keybinds: &ResolvedKeybinds,
    i18n: &I18n,
    now: u64,
) -> (out: Option<Command>)
    ensures
        event_applied(*old(app), *final(app), event, *keybinds, i18n.language(), now, out),
{
    match event {
        Event::Key(key) => {
            if key.kind == KeyEventKind::Press {
                match app.input_mode {
                    InputMode::Editing => handle_editing_key(key, app, keybinds, i18n),
                    InputMode::Normal => handle_normal_key(key, app, keybinds, i18n, now),
                }
            } else {
                None
            }
        },
        Event::Other => None,
    }
}

} // verus!
