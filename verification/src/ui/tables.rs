//! The rows of the tables and the lines of the panels, as texts.

use crate::app::{App, SearchEntry};
use crate::config::Keybinds;
use crate::i18n::{
    anonymous_text, game_mode_text, pick, placeholder_dash_text, result_loss_text,
    result_win_text, unknown_text, I18n, Language,
};
use crate::models::{MatchDetail, MatchPlayer, PlayerMatch};
use crate::text::{
    decimal, number_or, number_or_text, owned, push_decimal, push_decimal_wide, push_str,
    string_from_chars,
};
use crate::ui::helpers::{
    duration_text, format_duration, format_relative_time, is_win, relative_time_text,
    truncate_text,
    truncated, won,
};
use vstd::prelude::*;

verus! {

broadcast use vstd::std_specs::hash::group_hash_axioms;

/// The number of rows of two cells that a table of `height` cells shows
/// under its frame and its header: one at least.
pub open spec fn rows_in(height: u16) -> nat {
    if height < 5 {
        1
    } else {
        ((height - 3) / 2) as nat
    }
}

/// The number of rows that a table of `height` cells shows.
pub fn table_rows(height: u16) -> (rows: usize)
    ensures
        rows == rows_in(height),
        rows >= 1,
{
    if height < 5 {
        1
    } else {
        ((height - 3) / 2) as usize
    }
}

/// The part of the match list that a table shows, and the selected row
/// within that part.
#[derive(Debug, Clone, Copy, PartialEq, Eq, Structural)]
pub struct MatchWindow {
    pub start: usize,
    pub end: usize,
    pub selected: Option<usize>,
}

/// The selected match of a list of `total`: the one under the cursor, the
/// first where there is no cursor, and the last where the cursor is beyond
/// the list.
pub open spec fn cursor_row(total: nat, selected: Option<usize>) -> nat {
    let chosen: nat = match selected {
        Some(i) => i as nat,
        None => 0,
    };
    if total == 0 {
        0
    } else if chosen > total - 1 {
        (total - 1) as nat
    } else {
        chosen
    }
}

/// The part of a list of `total` matches that a table of `rows` rows shows
/// around the selected match: the selected match in the middle where the
/// list allows it, and the table full where the list is long enough.
pub open spec fn window_of(total: nat, selected: Option<usize>, rows: nat) -> MatchWindow {
    let cursor = cursor_row(total, selected);
    let centred: nat = if cursor > rows / 2 {
        (cursor - rows / 2) as nat
    } else {
        0
    };
    let start: nat = if centred + rows > total {
        if total > rows {
            (total - rows) as nat
        } else {
            0
        }
    } else {
        centred
    };
    let end: nat = if start + rows < total {
        start + rows
    } else {
        total
    };
    MatchWindow {
        start: start as usize,
        end: end as usize,
        selected: if total > 0 {
            Some((cursor - start) as usize)
        } else {
            None
        },
    }
}

/// The window lies within the list, is no longer than the table, is as long
/// as the table or the list allows, and holds the selected match.
pub proof fn lemma_window_holds_cursor(total: nat, selected: Option<usize>, rows: nat)
    requires
        rows >= 1,
        total <= usize::MAX,
    ensures
        ({
            let w = window_of(total, selected, rows);
            &&& w.start <= w.end <= total
            &&& w.end - w.start <= rows
            &&& w.end - w.start == if total < rows {
                total
            } else {
                rows
            }
            &&& total > 0 ==> w.start <= cursor_row(total, selected) < w.end
            &&& total > 0 ==> w.selected == Some((cursor_row(total, selected) - w.start) as usize)
        }),
{
}

pub fn match_window(total: usize, selected: Option<usize>, height: u16) -> (w: MatchWindow)
    ensures
        w == window_of(total as nat, selected, rows_in(height)),
{
    let rows = table_rows(height);
    let chosen: usize = match selected {
        Some(i) => i,
        None => 0,
    };
    let cursor: usize = if total == 0 {
        0
    } else if chosen > total - 1 {
        total - 1
    } else {
        chosen
    };
    let centred: usize = if cursor > rows / 2 {
        cursor - rows / 2
    } else {
        0
    };
    let start: usize = if rows > total || centred > total - rows {
        if total > rows {
            total - rows
        } else {
            0
        }
    } else {
        centred
    };
    let end: usize = if rows < total - start {
        start + rows
    } else {
        total
    };
    MatchWindow {
        start,
        end,
        selected: if total > 0 {
            Some(cursor - start)
        } else {
            None
        },
    }
}

/// The cells of one row of the match table.
pub struct MatchRow {
    pub hero: String,
    pub result: String,
    pub mode: String,
    pub duration: String,
    pub time: String,
    pub kills: String,
    pub deaths: String,
    pub assists: String,
    /// Whether the row shows a win.
    pub win: bool,
}

/// The space that a cell leaves for the picture in front of its text.
pub open spec fn picture_gap() -> Seq<char> {
    "       "@
}

/// The name of a hero as the tables show it.
pub open spec fn hero_text(heroes: Map<i32, String>, hero_id: i32, lang: Language) -> Seq<char> {
    if heroes.contains_key(hero_id) {
        heroes[hero_id]@
    } else {
        unknown_text(lang)
    }
}

/// Whether `row` is the row of the match table for `m`.
pub open spec fn is_match_row(row: MatchRow, app: App, m: PlayerMatch, lang: Language, now: i64) -> bool {
    &&& row.win == won(m)
    &&& row.hero@ == picture_gap() + truncated(hero_text(app.heroes@, m.hero_id, lang), 18)
    &&& row.result@ == if won(m) {
        result_win_text(lang)
    } else {
        result_loss_text(lang)
    }
    &&& row.mode@ == game_mode_text(lang, m.game_mode)
    &&& row.duration@ == duration_text(m.duration)
    &&& row.time@ == relative_time_text(lang, m.start_time, now)
    &&& row.kills@ == number_or(m.kills, placeholder_dash_text())
    &&& row.deaths@ == number_or(m.deaths, placeholder_dash_text())
    &&& row.assists@ == number_or(m.assists, placeholder_dash_text())
}

fn gapped(text: &str) -> (out: String)
    ensures
        out@ == picture_gap() + text@,
{
    crate::text::concat("       ", text)
}

/// The row of the match table for a match, seen from `now` in seconds since
/// 1970.
pub fn match_row(app: &App, m: &PlayerMatch, i18n: &I18n, now: i64) -> (row: MatchRow)
    ensures
        is_match_row(row, *app, *m, i18n.language(), now),
{
    let win = is_win(m);
    let name = app.hero_name(m.hero_id, i18n);
    let hero = truncate_text(name.as_str(), 18);
    MatchRow {
        hero: gapped(hero.as_str()),
        result: if win {
            owned(i18n.result_win())
        } else {
            owned(i18n.result_loss())
        },
        mode: i18n.format_game_mode(m.game_mode),
        duration: format_duration(m.duration),
        time: format_relative_time(m.start_time, now, i18n),
        kills: number_or_text(m.kills, i18n.placeholder_dash()),
        deaths: number_or_text(m.deaths, i18n.placeholder_dash()),
        assists: number_or_text(m.assists, i18n.placeholder_dash()),
        win,
    }
}

/// Whether a player plays for the radiant side: in one of the first 128
/// slots. A player without a slot plays for the other side.
pub open spec fn on_radiant(player: MatchPlayer) -> bool {
    match player.player_slot {
        Some(slot) => slot < 128,
        None => false,
    }
}

/// The players of one side among the first `count` of a match, in order,
/// and no more of them than `rows`.
pub open spec fn side_of(players: Seq<MatchPlayer>, radiant: bool, rows: nat, count: nat) -> Seq<
    MatchPlayer,
>
    decreases count,
{
    if count == 0 || count > players.len() {
        Seq::empty()
    } else {
        let before = side_of(players, radiant, rows, (count - 1) as nat);
        if on_radiant(players[count - 1]) == radiant && before.len() < rows {
            before.push(players[count - 1])
        } else {
            before
        }
    }
}

/// The players that a vector of references points to.
pub open spec fn pointed(players: Seq<&MatchPlayer>) -> Seq<MatchPlayer> {
    Seq::new(players.len(), |i: int| *players[i])
}

/// The players of one side of a match that a table of `rows` rows shows.
pub fn team_players<'a>(detail: &'a MatchDetail, radiant: bool, rows: usize) -> (shown: Vec<
    &'a MatchPlayer,
>)
    ensures
        pointed(shown@) == side_of(detail.players@, radiant, rows as nat, detail.players@.len()),
{
    let mut shown: Vec<&'a MatchPlayer> = Vec::new();
    let mut i: usize = 0;
    assert(pointed(shown@) =~= side_of(detail.players@, radiant, rows as nat, 0));
    while i < detail.players.len()
        invariant
            i <= detail.players@.len(),
            pointed(shown@) == side_of(detail.players@, radiant, rows as nat, i as nat),
        decreases detail.players.len() - i,
    {
        let player = &detail.players[i];
        let side = match player.player_slot {
            Some(slot) => slot < 128,
            None => false,
        };
        let ghost before = pointed(shown@);
        if side == radiant && shown.len() < rows {
            shown.push(player);
            assert(pointed(shown@) =~= before.push(*player));
        }
        i += 1;
    }
    shown
}

/// The cells of one row of a team table.
pub struct TeamRow {
    pub player: String,
    pub hero: String,
    pub kills: String,
    pub deaths: String,
    pub assists: String,
    pub gold_per_min: String,
    pub xp_per_min: String,
    pub net_worth: String,
    pub items: String,
}

/// The mark that tells, for finding faults, what is known of a player's
/// picture: that the player has no account, that no address is known, that
/// the picture is not in memory, or that it is.
pub open spec fn picture_mark(app: App, player: MatchPlayer) -> Seq<char> {
    match player.account_id {
        None => "[N]"@,
        Some(id) => if app.player_avatars@.contains_key(id) {
            if crate::recency::has_key(app.image_cache@, app.player_avatars@[id]@) {
                "[C]"@
            } else {
                "[U]"@
            }
        } else {
            "[?]"@
        },
    }
}

/// The name of a player as a team table shows it.
pub open spec fn player_text(app: App, player: MatchPlayer, lang: Language, marked: bool) -> Seq<char> {
    let name = match player.personaname {
        Some(name) => truncated(name@, 16),
        None => anonymous_text(lang),
    };
    if marked {
        name + " "@ + picture_mark(app, player)
    } else {
        name
    }
}

/// Whether `row` is the row of a team table for `player`.
pub open spec fn is_team_row(row: TeamRow, app: App, player: MatchPlayer, lang: Language, marked: bool) -> bool {
    &&& row.player@ == picture_gap() + player_text(app, player, lang, marked)
    &&& row.hero@ == picture_gap() + truncated(
        match player.hero_id {
            Some(id) => hero_text(app.heroes@, id, lang),
            None => unknown_text(lang),
        },
        18,
    )
    &&& row.kills@ == number_or(player.kills, placeholder_dash_text())
    &&& row.deaths@ == number_or(player.deaths, placeholder_dash_text())
    &&& row.assists@ == number_or(player.assists, placeholder_dash_text())
    &&& row.gold_per_min@ == number_or(player.gold_per_min, placeholder_dash_text())
    &&& row.xp_per_min@ == number_or(player.xp_per_min, placeholder_dash_text())
    &&& row.net_worth@ == number_or(player.net_worth, placeholder_dash_text())
    &&& row.items@ == Seq::<char>::empty()
}

fn mark_of(app: &App, player: &MatchPlayer) -> (mark: &'static str)
    ensures
        mark@ == picture_mark(*app, *player),
{
    match player.account_id {
        None => "[N]",
        Some(id) => match app.player_avatars.get(&id) {
            Some(url) => if app.image_cache.contains_key(url.as_str()) {
                "[C]"
            } else {
                "[U]"
            },
            None => "[?]",
        },
    }
}

/// The row of a team table for a player. `marked` adds the mark that tells
/// what is known of the player's picture.
pub fn team_row(app: &App, player: &MatchPlayer, i18n: &I18n, marked: bool) -> (row: TeamRow)
    ensures
        is_team_row(row, *app, *player, i18n.language(), marked),
{
    let hero_name = match player.hero_id {
        Some(id) => app.hero_name(id, i18n),
        None => owned(i18n.unknown()),
    };
    let hero = truncate_text(hero_name.as_str(), 18);
    let mut name = match &player.personaname {
        Some(name) => truncate_text(name.as_str(), 16),
        None => owned(i18n.anonymous()),
    };
    if marked {
        name = crate::text::concat3(name.as_str(), " ", mark_of(app, player));
    }
    TeamRow {
        player: gapped(name.as_str()),
        hero: gapped(hero.as_str()),
        kills: number_or_text(player.kills, i18n.placeholder_dash()),
        deaths: number_or_text(player.deaths, i18n.placeholder_dash()),
        assists: number_or_text(player.assists, i18n.placeholder_dash()),
        gold_per_min: number_or_text(player.gold_per_min, i18n.placeholder_dash()),
        xp_per_min: number_or_text(player.xp_per_min, i18n.placeholder_dash()),
        net_worth: number_or_text(player.net_worth, i18n.placeholder_dash()),
        items: String::new(),
    }
}

/// What the panel of the open match shows.
#[derive(Debug, Clone, Copy, PartialEq, Eq, Structural)]
pub enum DetailView {
    /// That the match is loading.
    Loading,
    /// That a match is to be chosen.
    Waiting,
    /// The two team tables.
    Teams,
}

/// What the panel of the open match shows.
pub fn detail_view(app: &App) -> (view: DetailView)
    ensures
        view == if app.detail_loading {
            DetailView::Loading
        } else if app.match_detail is None {
            DetailView::Waiting
        } else {
            DetailView::Teams
        },
{
    if app.detail_loading {
        DetailView::Loading
    } else if app.match_detail.is_none() {
        DetailView::Waiting
    } else {
        DetailView::Teams
    }
}

/// Whether anything is loading, which the panels show by their colour.
pub fn is_busy(app: &App) -> (busy: bool)
    ensures
        busy == (app.loading || app.detail_loading || app.avatar_loading),
{
    app.loading || app.detail_loading || app.avatar_loading
}

/// The status line with the progress of the requests behind it: how many
/// are done of how many, and how long the last one took.
pub open spec fn status_line_text(app: App) -> Seq<char> {
    if app.net_total > 0 {
        let progress = app.status@ + " | "@ + decimal(app.net_done as nat) + "/"@ + decimal(
            app.net_total as nat,
        );
        match app.net_last_ms {
            Some(ms) => progress + " | "@ + decimal(ms as nat) + "ms"@,
            None => progress,
        }
    } else {
        app.status@
    }
}

pub fn status_line(app: &App) -> (line: String)
    ensures
        line@ == status_line_text(*app),
{
    if app.net_total == 0 {
        return app.status.clone();
    }
    let mut out: Vec<char> = Vec::new();
    push_str(app.status.as_str(), &mut out);
    push_str(" | ", &mut out);
    push_decimal(app.net_done as u64, &mut out);
    push_str("/", &mut out);
    push_decimal(app.net_total as u64, &mut out);
    if let Some(ms) = app.net_last_ms {
        push_str(" | ", &mut out);
        push_decimal_wide(ms, &mut out);
        push_str("ms", &mut out);
    }
    assert(out@ =~= status_line_text(*app));
    string_from_chars(&out)
}

/// The line of a recent search: the name, and the account in brackets.
pub open spec fn recent_label_text(entry: SearchEntry) -> Seq<char> {
    entry.personaname@ + " ("@ + decimal(entry.account_id as nat) + ")"@
}

pub fn recent_label(entry: &SearchEntry) -> (label: String)
    ensures
        label@ == recent_label_text(*entry),
{
    let mut out: Vec<char> = Vec::new();
    push_str(entry.personaname.as_str(), &mut out);
    push_str(" (", &mut out);
    push_decimal(entry.account_id as u64, &mut out);
    push_str(")", &mut out);
    assert(out@ =~= recent_label_text(*entry));
    string_from_chars(&out)
}

/// One line of the help: a key and what it does.
pub open spec fn help_line(key: Seq<char>, label: Seq<char>) -> Seq<char> {
    "  "@ + key + "  "@ + label
}

/// One line of the help for two keys that belong together.
pub open spec fn help_line_pair(first: Seq<char>, second: Seq<char>, label: Seq<char>) -> Seq<char> {
    "  "@ + first + "  "@ + label + "/"@ + second
}

/// The text of the help window: the keys of searching, of moving, of the
/// views and of the rest, each group under its heading and parted from the
/// next by an empty line.
pub open spec fn help_text_of(k: Keybinds, lang: Language) -> Seq<char> {
    pick(lang, "Search"@, "搜索"@) + "\n"@ + help_line(k.search@, pick(lang, "Search"@, "搜索"@))
        + "\n"@ + help_line(k.clear_input@, pick(lang, "Clear input"@, "清空输入"@)) + "\n\n"@
        + pick(lang, "Navigation"@, "导航"@) + "\n"@ + help_line_pair(
        k.up@,
        k.down@,
        pick(lang, "Up/Down"@, "上/下"@),
    ) + "\n"@ + help_line(k.select@, pick(lang, "Select"@, "选择"@)) + "\n"@ + help_line_pair(
        k.top@,
        k.bottom@,
        pick(lang, "Top/Bottom"@, "顶部/底部"@),
    ) + "\n\n"@ + pick(lang, "Views"@, "视图"@) + "\n"@ + help_line_pair(
        k.tab_prev@,
        k.tab_next@,
        pick(lang, "Tab next/prev"@, "切换标签"@),
    ) + "\n\n"@ + pick(lang, "General"@, "通用"@) + "\n"@ + help_line(
        k.help@,
        pick(lang, "Help"@, "帮助"@),
    ) + "\n"@ + help_line(k.quit@, pick(lang, "Quit"@, "退出"@))
}

fn push_help_line(key: &str, label: &str, out: &mut Vec<char>)
    ensures
        final(out)@ == old(out)@ + help_line(key@, label@),
{
    push_str("  ", out);
    push_str(key, out);
    push_str("  ", out);
    push_str(label, out);
    assert(final(out)@ =~= old(out)@ + help_line(key@, label@));
}

fn push_help_pair(first: &str, second: &str, label: &str, out: &mut Vec<char>)
    ensures
        final(out)@ == old(out)@ + help_line_pair(first@, second@, label@),
{
    push_str("  ", out);
    push_str(first, out);
    push_str("  ", out);
    push_str(label, out);
    push_str("/", out);
    push_str(second, out);
    assert(final(out)@ =~= old(out)@ + help_line_pair(first@, second@, label@));
}

/// The text of the help window.
pub fn help_text(keybinds: &Keybinds, i18n: &I18n) -> (text: String)
    ensures
        text@ == help_text_of(*keybinds, i18n.language()),
{
    let labels = i18n.help_labels();
    let mut out: Vec<char> = Vec::new();
    push_str(i18n.help_group_search(), &mut out);
    push_str("\n", &mut out);
    push_help_line(keybinds.search.as_str(), labels[0], &mut out);
    push_str("\n", &mut out);
    push_help_line(keybinds.clear_input.as_str(), labels[5], &mut out);
    push_str("\n\n", &mut out);
    push_str(i18n.help_group_navigation(), &mut out);
    push_str("\n", &mut out);
    push_help_pair(keybinds.up.as_str(), keybinds.down.as_str(), labels[2], &mut out);
    push_str("\n", &mut out);
    push_help_line(keybinds.select.as_str(), labels[3], &mut out);
    push_str("\n", &mut out);
    push_help_pair(keybinds.top.as_str(), keybinds.bottom.as_str(), labels[4], &mut out);
    push_str("\n\n", &mut out);
    push_str(i18n.help_group_views(), &mut out);
    push_str("\n", &mut out);
    push_help_pair(keybinds.tab_prev.as_str(), keybinds.tab_next.as_str(), labels[6], &mut out);
    push_str("\n\n", &mut out);
    push_str(i18n.help_group_misc(), &mut out);
    push_str("\n", &mut out);
    push_help_line(keybinds.help.as_str(), labels[7], &mut out);
    push_str("\n", &mut out);
    push_help_line(keybinds.quit.as_str(), labels[1], &mut out);
    assert(out@ =~= help_text_of(*keybinds, i18n.language()));
    string_from_chars(&out)
}

} // verus!
