//! The texts of the panels.

use crate::app::App;
use crate::i18n::{
    game_mode_text, label_mmr_text, label_name_text, label_steamid_text, loading_player_text,
    no_player_loaded_text, placeholder_dash_text, quick_stats_text, status_no_matches_text,
    time_days_text, time_hours_text, time_minutes_text, time_now_text, unknown_text, I18n,
    Language,
};
use crate::models::{PlayerMatch, PlayerResponse};
use crate::ui::Rect;
use crate::text::{
    chars_of, decimal, owned, push_decimal, push_signed_decimal, push_str, signed_decimal,
    string_from_chars,
};
use vstd::prelude::*;

verus! {

/// The name to show for a player: the profile's, or the word for an unknown
/// one.
pub open spec fn persona_text(lang: Language, response: PlayerResponse) -> Seq<char> {
    match response.profile {
        Some(p) => match p.personaname {
            Some(name) => name@,
            None => unknown_text(lang),
        },
        None => unknown_text(lang),
    }
}

/// The platform id to show for a player, or the placeholder.
pub open spec fn steamid_text(response: PlayerResponse) -> Seq<char> {
    match response.profile {
        Some(p) => match p.steamid {
            Some(id) => id@,
            None => placeholder_dash_text(),
        },
        None => placeholder_dash_text(),
    }
}

/// The rating estimate to show for a player, or the placeholder.
pub open spec fn mmr_text(response: PlayerResponse) -> Seq<char> {
    match response.mmr_estimate {
        Some(m) => match m.estimate {
            Some(v) => signed_decimal(v as int),
            None => placeholder_dash_text(),
        },
        None => placeholder_dash_text(),
    }
}

/// The text of the profile panel: that a player is loading, that none is
/// loaded, or the player's name, platform id and rating, one to a line.
pub open spec fn profile_text(app: App, lang: Language) -> Seq<char> {
    if app.loading {
        loading_player_text(lang)
    } else {
        match app.profile {
            None => no_player_loaded_text(lang),
            Some(response) => label_name_text(lang) + ": "@ + persona_text(lang, response) + "\n"@
                + label_steamid_text(lang) + ": "@ + steamid_text(response) + "\n"@
                + label_mmr_text(lang) + ": "@ + mmr_text(response),
        }
    }
}

pub fn build_profile_text(app: &App, i18n: &I18n) -> (text: String)
    ensures
        text@ == profile_text(*app, i18n.language()),
{
    if app.loading {
        return owned(i18n.loading_player());
    }
    let response = match &app.profile {
        Some(response) => response,
        None => {
            return owned(i18n.no_player_loaded());
        },
    };
    let mut out: Vec<char> = Vec::new();
    push_str(i18n.label_name(), &mut out);
    push_str(": ", &mut out);
    let mut named = false;
    if let Some(p) = &response.profile {
        if let Some(name) = &p.personaname {
            push_str(name.as_str(), &mut out);
            named = true;
        }
    }
    if !named {
        push_str(i18n.unknown(), &mut out);
    }
    push_str("\n", &mut out);
    push_str(i18n.label_steamid(), &mut out);
    push_str(": ", &mut out);
    let mut known = false;
    if let Some(p) = &response.profile {
        if let Some(id) = &p.steamid {
            push_str(id.as_str(), &mut out);
            known = true;
        }
    }
    if !known {
        push_str(i18n.placeholder_dash(), &mut out);
    }
    push_str("\n", &mut out);
    push_str(i18n.label_mmr(), &mut out);
    push_str(": ", &mut out);
    let mut rated = false;
    if let Some(m) = &response.mmr_estimate {
        if let Some(v) = m.estimate {
            push_signed_decimal(v as i64, &mut out);
            rated = true;
        }
    }
    if !rated {
        push_str(i18n.placeholder_dash(), &mut out);
    }
    assert(out@ =~= profile_text(*app, i18n.language()));
    string_from_chars(&out)
}

/// Whether the player won a match: a player in one of the first 128 slots
/// plays for the radiant side.
pub open spec fn won(m: PlayerMatch) -> bool {
    (m.player_slot < 128) == m.radiant_win
}

pub fn is_win(match_item: &PlayerMatch) -> (r: bool)
    ensures
        r == won(*match_item),
{
    let is_radiant = match_item.player_slot < 128;
    is_radiant == match_item.radiant_win
}

/// The number of matches won among `matches`.
pub open spec fn wins_in(matches: Seq<PlayerMatch>) -> nat
    decreases matches.len(),
{
    if matches.len() == 0 {
        0
    } else {
        wins_in(matches.drop_last()) + if won(matches.last()) {
            1nat
        } else {
            0nat
        }
    }
}

/// Counts the matches won.
pub fn count_wins(matches: &Vec<PlayerMatch>) -> (wins: usize)
    ensures
        wins == wins_in(matches@),
{
    let mut wins: usize = 0;
    let mut i: usize = 0;
    assert(matches@.take(0) =~= Seq::<PlayerMatch>::empty());
    while i < matches.len()
        invariant
            i <= matches.len(),
            wins == wins_in(matches@.take(i as int)),
            wins <= i,
        decreases matches.len() - i,
    {
        assert(matches@.take(i + 1).drop_last() =~= matches@.take(i as int));
        if is_win(&matches[i]) {
            wins += 1;
        }
        i += 1;
    }
    assert(matches@.take(matches@.len() as int) =~= matches@);
    wins
}

pub fn build_quick_stats(app: &App, i18n: &I18n) -> (text: String)
    ensures
        text@ == if app.matches@.len() == 0 {
            status_no_matches_text(i18n.language())
        } else {
            quick_stats_text(i18n.language(), app.matches@.len(), wins_in(app.matches@))
        },
{
    let total = app.matches.len();
    if total == 0 {
        return owned(i18n.status_no_matches());
    }
    let wins = count_wins(&app.matches);
    i18n.quick_stats_format(total, wins)
}

/// The bar of the chart for one match: tall for a win, short for a loss.
pub open spec fn bar(m: PlayerMatch) -> u64 {
    if won(m) {
        10
    } else {
        2
    }
}

/// The bars of the chart: one for each of the first twenty matches, the
/// first match last; a single bar of no height where there is no match.
pub open spec fn sparkline(matches: Seq<PlayerMatch>) -> Seq<u64> {
    let shown = if matches.len() > 20 {
        20
    } else {
        matches.len() as int
    };
    if shown == 0 {
        seq![0u64]
    } else {
        Seq::new(shown as nat, |i: int| bar(matches[shown - 1 - i]))
    }
}

pub fn build_sparkline(app: &App) -> (data: Vec<u64>)
    ensures
        data@ == sparkline(app.matches@),
{
    let shown: usize = if app.matches.len() > 20 {
        20
    } else {
        app.matches.len()
    };
    let mut data: Vec<u64> = Vec::new();
    let mut i: usize = 0;
    while i < shown
        invariant
            i <= shown <= app.matches@.len(),
            data@.len() == i,
            forall|k: int| 0 <= k < i ==> data@[k] == bar(app.matches@[shown - 1 - k]),
        decreases shown - i,
    {
        data.push(
            if is_win(&app.matches[shown - 1 - i]) {
                10
            } else {
                2
            },
        );
        i += 1;
    }
    if data.len() == 0 {
        data.push(0);
    }
    assert(data@ =~= sparkline(app.matches@));
    data
}

/// A number in decimal with a zero before it where it has one digit.
pub open spec fn two_digits(n: nat) -> Seq<char> {
    if n < 10 {
        seq!['0'] + decimal(n)
    } else {
        decimal(n)
    }
}

/// A duration as minutes and seconds, each of two digits at least.
pub open spec fn duration_text(seconds: u32) -> Seq<char> {
    two_digits((seconds / 60) as nat) + seq![':'] + two_digits((seconds % 60) as nat)
}

pub fn format_duration(seconds: u32) -> (text: String)
    ensures
        text@ == duration_text(seconds),
{
    let mins = seconds / 60;
    let secs = seconds % 60;
    let mut out: Vec<char> = Vec::new();
    if mins < 10 {
        out.push('0');
    }
    push_decimal(mins as u64, &mut out);
    out.push(':');
    if secs < 10 {
        out.push('0');
    }
    push_decimal(secs as u64, &mut out);
    assert(out@ =~= duration_text(seconds));
    string_from_chars(&out)
}

/// How long ago a match began, seen from `now`: just now within a minute,
/// then in whole minutes, hours or days. A match that begins later than now
/// began just now, and one with no time shows the placeholder.
pub open spec fn relative_time_text(lang: Language, start_time: Option<i64>, now: i64) -> Seq<char> {
    match start_time {
        None => placeholder_dash_text(),
        Some(start) => {
            let diff: int = if now - start > 0 {
                now - start
            } else {
                0
            };
            if diff < 60 {
                time_now_text(lang)
            } else if diff < 3600 {
                time_minutes_text(lang, diff / 60)
            } else if diff < 86400 {
                time_hours_text(lang, diff / 3600)
            } else {
                time_days_text(lang, diff / 86400)
            }
        },
    }
}

/// How long ago a match began, seen from `now`; both are counted in seconds
/// since 1970, and whoever calls reads the clock.
pub fn format_relative_time(start_time: Option<i64>, now: i64, i18n: &I18n) -> (text: String)
    ensures
        text@ == relative_time_text(i18n.language(), start_time, now),
{
    let start = match start_time {
        Some(start) => start,
        None => {
            return owned(i18n.placeholder_dash());
        },
    };
    let apart: i128 = now as i128 - start as i128;
    let diff: i128 = if apart > 0 {
        apart
    } else {
        0
    };
    if diff < 60 {
        owned(i18n.time_now())
    } else if diff < 3600 {
        i18n.time_minutes((diff / 60) as i64)
    } else if diff < 86400 {
        i18n.time_hours((diff / 3600) as i64)
    } else {
        i18n.time_days((diff / 86400) as i64)
    }
}

pub fn format_game_mode(game_mode: Option<i32>, i18n: &I18n) -> (text: String)
    ensures
        text@ == game_mode_text(i18n.language(), game_mode),
{
    i18n.format_game_mode(game_mode)
}

/// A text cut to fit a column. A text of no more than `max` bytes stays as
/// it is; a longer one keeps its first `max - 1` characters, as far as it
/// has them, and ends in an ellipsis.
pub open spec fn truncated(value: Seq<char>, max: usize) -> Seq<char> {
    if vstd::utf8::encode_utf8(value).len() <= max {
        value
    } else {
        let keep = if max == 0 {
            0int
        } else if max - 1 < value.len() {
            max - 1
        } else {
            value.len() as int
        };
        value.take(keep).push('\u{2026}')
    }
}

pub fn truncate_text(value: &str, max: usize) -> (text: String)
    ensures
        text@ == truncated(value@, max),
{
    if value.as_bytes().len() <= max {
        return owned(value);
    }
    let chars = chars_of(value);
    let keep: usize = if max == 0 {
        0
    } else if max - 1 < chars.len() {
        max - 1
    } else {
        chars.len()
    };
    let mut out: Vec<char> = Vec::new();
    let mut i: usize = 0;
    while i < keep
        invariant
            i <= keep <= chars.len(),
            out@ == chars@.take(i as int),
        decreases keep - i,
    {
        out.push(chars[i]);
        assert(chars@.take(i + 1) =~= chars@.take(i as int).push(chars@[i as int]));
        i += 1;
    }
    out.push('\u{2026}');
    string_from_chars(&out)
}

/// The direction along which an area is split.
#[derive(Debug, Clone, Copy, PartialEq, Eq, Structural)]
pub enum Axis {
    /// Into parts one above the other.
    Vertical,
    /// Into parts side by side.
    Horizontal,
}

/// Whether `part` is what a split of `area` along `axis` may give: as wide
/// as the area and in its columns where the parts lie one above the other,
/// as tall as the area and in its rows where they lie side by side, and
/// along the axis somewhere inside the area.
pub open spec fn is_part_along(axis: Axis, area: Rect, part: Rect) -> bool {
    match axis {
        Axis::Vertical => {
            &&& part.x == area.x
            &&& part.width == area.width
            &&& area.y <= part.y
            &&& part.y + part.height <= area.y + area.height
        },
        Axis::Horizontal => {
            &&& part.y == area.y
            &&& part.height == area.height
            &&& area.x <= part.x
            &&& part.x + part.width <= area.x + area.width
        },
    }
}

/// `ratatui::layout::Layout::split` with three `Constraint::Percentage`
/// constraints along one direction, which together ask for no more than the
/// whole area: the second of the parts that it returns. The layout keeps
/// every part between the ends of the area along the direction of the split
/// and gives it the area's own extent across it. Where within the area the
/// part lies is the solver's to say, and nothing is claimed of it.
#[verifier::external_body]
fn split_middle(axis: Axis, side: u16, middle: u16, area: Rect) -> (part: Rect)
    requires
        2 * side + middle <= 100,
    ensures
        is_part_along(axis, area, part),
{
    let direction = match axis {
        Axis::Vertical => ratatui::layout::Direction::Vertical,
        Axis::Horizontal => ratatui::layout::Direction::Horizontal,
    };
    let parts = ratatui::layout::Layout::default().direction(direction).constraints([
        ratatui::layout::Constraint::Percentage(side),
        ratatui::layout::Constraint::Percentage(middle),
        ratatui::layout::Constraint::Percentage(side),
    ]).split(ratatui::layout::Rect { x: area.x, y: area.y, width: area.width, height: area.height });
    Rect { x: parts[1].x, y: parts[1].y, width: parts[1].width, height: parts[1].height }
}

/// The area in the middle of `area` that is to take `percent_x` percent of
/// its width and `percent_y` percent of its height: the layout picks the
/// middle rows first, and of those the middle columns. Whatever it picks
/// lies inside `area`.
pub fn centered_rect(percent_x: u16, percent_y: u16, area: Rect) -> (r: Rect)
    requires
        percent_x <= 100,
        percent_y <= 100,
    ensures
        area.encloses(r),
{
    let rows = split_middle(Axis::Vertical, (100 - percent_y) / 2, percent_y, area);
    split_middle(Axis::Horizontal, (100 - percent_x) / 2, percent_x, rows)
}

} // verus!
