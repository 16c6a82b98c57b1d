//! Where each picture of the screen goes.

use crate::app::{App, SearchEntry};
use crate::models::{MatchPlayer, PlayerMatch};
use crate::ui::{add_clipped, clip, ImageTarget, Rect};
use std::collections::HashMap;
use vstd::prelude::*;

verus! {

broadcast use vstd::std_specs::hash::group_hash_axioms;

/// The pictures of the first `count` recent searches, each in the row of
/// its search: rows of two cells from the second row of the area on, a
/// picture of six by two cells where the search has one and the row ends
/// above the area's last row.
pub open spec fn recent_targets(recent: Seq<SearchEntry>, area: Rect, count: nat) -> Seq<ImageTarget>
    decreases count,
{
    if count == 0 || count > recent.len() {
        Seq::empty()
    } else {
        let before = recent_targets(recent, area, (count - 1) as nat);
        let y = clip(area.y + 1 + 2 * (count - 1));
        match recent[count - 1].avatar_url {
            Some(url) => if area.holds_row(y, 2) {
                before.push(ImageTarget { area: Rect::clamped(clip(area.x + 1), y, 6, 2), url })
            } else {
                before
            },
            None => before,
        }
    }
}

pub fn push_recent_images(app: &App, area: Rect, images: &mut Vec<ImageTarget>)
    ensures
        final(images)@ == old(images)@ + recent_targets(
            app.recent_searches@,
            area,
            app.recent_searches@.len(),
        ),
{
    let start_x = add_clipped(area.x, 1);
    let mut y = add_clipped(area.y, 1);
    let mut i: usize = 0;
    assert(images@ =~= old(images)@ + recent_targets(app.recent_searches@, area, 0));
    while i < app.recent_searches.len()
        invariant
            i <= app.recent_searches@.len(),
            start_x == clip(area.x + 1),
            y == clip(area.y + 1 + 2 * i),
            images@ == old(images)@ + recent_targets(app.recent_searches@, area, i as nat),
        decreases app.recent_searches.len() - i,
    {
        if let Some(url) = &app.recent_searches[i].avatar_url {
            if area.has_room(y, 2) {
                images.push(ImageTarget { area: Rect::new(start_x, y, 6, 2), url: url.clone() });
            }
        }
        assert(images@ =~= old(images)@ + recent_targets(
            app.recent_searches@,
            area,
            (i + 1) as nat,
        ));
        y = add_clipped(y, 2);
        i += 1;
    }
}

/// The pictures of the heroes of `count` matches from `start` on, each in
/// the row of its match: rows of two cells from the third row of the area
/// on, a picture of six by two cells where the hero has one and the row
/// ends above the area's last row.
pub open spec fn match_row_targets(
    matches: Seq<PlayerMatch>,
    hero_images: Map<i32, String>,
    area: Rect,
    start: nat,
    count: nat,
) -> Seq<ImageTarget>
    decreases count,
{
    if count == 0 || start + count > matches.len() {
        Seq::empty()
    } else {
        let before = match_row_targets(matches, hero_images, area, start, (count - 1) as nat);
        let y = clip(area.y + 2 + 2 * (count - 1));
        let hero = matches[start + count - 1].hero_id;
        if hero_images.contains_key(hero) && area.holds_row(y, 2) {
            before.push(
                ImageTarget { area: Rect::clamped(clip(area.x + 1), y, 6, 2), url: hero_images[hero] },
            )
        } else {
            before
        }
    }
}

/// The number of rows that are shown of `count` asked for from `start` on.
pub open spec fn rows_shown(total: nat, start: nat, count: nat) -> nat {
    if start >= total {
        0
    } else if start + count > total {
        (total - start) as nat
    } else {
        count
    }
}

pub fn push_match_row_images(
    app: &App,
    area: Rect,
    images: &mut Vec<ImageTarget>,
    start: usize,
    count: usize,
)
    ensures
        final(images)@ == old(images)@ + match_row_targets(
            app.matches@,
            app.hero_images@,
            area,
            start as nat,
            rows_shown(app.matches@.len(), start as nat, count as nat),
        ),
{
    let total = app.matches.len();
    let shown: usize = if start >= total {
        0
    } else if count > total - start {
        total - start
    } else {
        count
    };
    let start_x = add_clipped(area.x, 1);
    let mut y = add_clipped(area.y, 2);
    let mut i: usize = 0;
    assert(images@ =~= old(images)@ + match_row_targets(
        app.matches@,
        app.hero_images@,
        area,
        start as nat,
        0,
    ));
    while i < shown
        invariant
            i <= shown,
            shown == rows_shown(app.matches@.len(), start as nat, count as nat),
            total == app.matches@.len(),
            shown > 0 ==> start + shown <= total,
            start_x == clip(area.x + 1),
            y == clip(area.y + 2 + 2 * i),
            images@ == old(images)@ + match_row_targets(
                app.matches@,
                app.hero_images@,
                area,
                start as nat,
                i as nat,
            ),
        decreases shown - i,
    {
        let hero = app.matches[start + i].hero_id;
        if let Some(url) = app.hero_images.get(&hero) {
            if area.has_room(y, 2) {
                images.push(ImageTarget { area: Rect::new(start_x, y, 6, 2), url: url.clone() });
            }
        }
        assert(images@ =~= old(images)@ + match_row_targets(
            app.matches@,
            app.hero_images@,
            area,
            start as nat,
            (i + 1) as nat,
        ));
        y = add_clipped(y, 2);
        i += 1;
    }
}

/// The index of the first of `players` who plays for `account_id`.
pub open spec fn first_player_of(players: Seq<MatchPlayer>, account_id: u32, from: int) -> Option<int>
    decreases players.len() - from,
{
    if from < 0 || from >= players.len() {
        None
    } else if players[from].account_id == Some(account_id) {
        Some(from)
    } else {
        first_player_of(players, account_id, from + 1)
    }
}

/// The record of the player on screen in the open match: the first record
/// of the match that names the account.
pub open spec fn player_detail(app: App) -> Option<MatchPlayer> {
    match (app.match_detail, app.account_id) {
        (Some(detail), Some(account_id)) => match first_player_of(detail.players@, account_id, 0) {
            Some(i) => Some(detail.players@[i]),
            None => None,
        },
        _ => None,
    }
}

pub fn find_player_detail(app: &App) -> (r: Option<&MatchPlayer>)
    ensures
        r == match player_detail(*app) {
            Some(p) => Some(&p),
            None => None,
        },
{
    let detail = match &app.match_detail {
        Some(detail) => detail,
        None => {
            return None;
        },
    };
    let account_id = match app.account_id {
        Some(account_id) => account_id,
        None => {
            return None;
        },
    };
    let mut i: usize = 0;
    while i < detail.players.len()
        invariant
            i <= detail.players@.len(),
            app.match_detail == Some(*detail),
            app.account_id == Some(account_id),
            first_player_of(detail.players@, account_id, 0) == first_player_of(
                detail.players@,
                account_id,
                i as int,
            ),
        decreases detail.players.len() - i,
    {
        if let Some(id) = detail.players[i].account_id {
            if id == account_id {
                return Some(&detail.players[i]);
            }
        }
        i += 1;
    }
    None
}

/// The six item slots of a player, in order.
pub open spec fn item_slots(player: MatchPlayer) -> Seq<Option<i32>> {
    seq![player.item_0, player.item_1, player.item_2, player.item_3, player.item_4, player.item_5]
}

/// The number of slots among the first `count` that hold an item.
pub open spec fn filled(slots: Seq<Option<i32>>, count: nat) -> nat
    decreases count,
{
    if count == 0 || count > slots.len() {
        0
    } else {
        filled(slots, (count - 1) as nat) + if slots[count - 1] is Some {
            1nat
        } else {
            0nat
        }
    }
}

/// The pictures of the items in the first `count` slots, side by side from
/// `x` on: every item takes a place five cells wide, whether or not it has
/// a picture, and an empty slot takes none.
pub open spec fn item_targets(
    slots: Seq<Option<i32>>,
    item_images: Map<i32, String>,
    x: u16,
    y: u16,
    height: u16,
    room: bool,
    count: nat,
) -> Seq<ImageTarget>
    decreases count,
{
    if count == 0 || count > slots.len() {
        Seq::empty()
    } else {
        let before = item_targets(slots, item_images, x, y, height, room, (count - 1) as nat);
        match slots[count - 1] {
            Some(item) => if item_images.contains_key(item) && room {
                before.push(
                    ImageTarget {
                        area: Rect::clamped(
                            clip(x + 5 * filled(slots, (count - 1) as nat)),
                            y,
                            4,
                            height,
                        ),
                        url: item_images[item],
                    },
                )
            } else {
                before
            },
            None => before,
        }
    }
}

fn push_item_images(
    player: &MatchPlayer,
    item_images: &HashMap<i32, String>,
    x: u16,
    y: u16,
    height: u16,
    room: bool,
    images: &mut Vec<ImageTarget>,
)
    ensures
        final(images)@ == old(images)@ + item_targets(
            item_slots(*player),
            item_images@,
            x,
            y,
            height,
            room,
            6,
        ),
{
    let slots: [Option<i32>; 6] = [
        player.item_0,
        player.item_1,
        player.item_2,
        player.item_3,
        player.item_4,
        player.item_5,
    ];
    assert(slots@ =~= item_slots(*player));
    let mut at = x;
    let mut i: usize = 0;
    assert(images@ =~= old(images)@ + item_targets(slots@, item_images@, x, y, height, room, 0));
    while i < 6
        invariant
            i <= 6,
            slots@.len() == 6,
            at == clip(x + 5 * filled(slots@, i as nat)),
            images@ == old(images)@ + item_targets(
                slots@,
                item_images@,
                x,
                y,
                height,
                room,
                i as nat,
            ),
        decreases 6 - i,
    {
        if let Some(item) = slots[i] {
            if let Some(url) = item_images.get(&item) {
                if room {
                    images.push(ImageTarget { area: Rect::new(at, y, 4, height), url: url.clone() });
                }
            }
            at = add_clipped(at, 5);
        }
        assert(images@ =~= old(images)@ + item_targets(
            slots@,
            item_images@,
            x,
            y,
            height,
            room,
            (i + 1) as nat,
        ));
        i += 1;
    }
}

/// The pictures of the loadout panel: the hero of the player on screen in
/// the open match, six by four cells, and beside it the player's items,
/// four by four cells each. Nothing where the match does not name the
/// player or the player's hero.
pub open spec fn loadout_targets(app: App, area: Rect) -> Seq<ImageTarget> {
    match player_detail(app) {
        Some(player) => match player.hero_id {
            Some(hero) => (if app.hero_images@.contains_key(hero) {
                seq![
                    ImageTarget {
                        area: Rect::clamped(clip(area.x + 1), clip(area.y + 1), 6, 4),
                        url: app.hero_images@[hero],
                    },
                ]
            } else {
                Seq::empty()
            }) + item_targets(
                item_slots(player),
                app.item_images@,
                clip(area.x + 8),
                clip(area.y + 1),
                4,
                true,
                6,
            ),
            None => Seq::empty(),
        },
        None => Seq::empty(),
    }
}

pub fn push_loadout_images(app: &App, area: Rect, images: &mut Vec<ImageTarget>)
    ensures
        final(images)@ == old(images)@ + loadout_targets(*app, area),
{
    let player = match find_player_detail(app) {
        Some(player) => player,
        None => {
            assert(images@ =~= old(images)@ + loadout_targets(*app, area));
            return;
        },
    };
    let hero = match player.hero_id {
        Some(hero) => hero,
        None => {
            assert(images@ =~= old(images)@ + loadout_targets(*app, area));
            return;
        },
    };
    let y = add_clipped(area.y, 1);
    if let Some(url) = app.hero_images.get(&hero) {
        images.push(
            ImageTarget { area: Rect::new(add_clipped(area.x, 1), y, 6, 4), url: url.clone() },
        );
    }
    push_item_images(player, &app.item_images, add_clipped(area.x, 8), y, 4, true, images);
    assert(images@ =~= old(images)@ + loadout_targets(*app, area));
}

/// The column of the player pictures in a team table, counted from the
/// area's left edge.
pub const TEAM_PLAYER_COLUMN: u16 = 1;

/// The column of the hero pictures in a team table.
pub const TEAM_HERO_COLUMN: u16 = 24;

/// The column of the first item picture in a team table: behind the columns
/// of the player, the hero, the three counts, the two rates and the worth,
/// each with the cell that parts it from the next.
pub const TEAM_ITEMS_COLUMN: u16 = 73;

/// The pictures of one row of a team table: the player's, the hero's, and
/// the items', each two cells high.
pub open spec fn team_row_targets(app: App, player: MatchPlayer, area: Rect, y: u16) -> Seq<
    ImageTarget,
> {
    let room = area.holds_row(y, 2);
    (match player.account_id {
        Some(id) => if app.player_avatars@.contains_key(id) && room {
            seq![
                ImageTarget {
                    area: Rect::clamped(clip(area.x + TEAM_PLAYER_COLUMN), y, 6, 2),
                    url: app.player_avatars@[id],
                },
            ]
        } else {
            Seq::empty()
        },
        None => Seq::empty(),
    }) + (match player.hero_id {
        Some(hero) => if app.hero_images@.contains_key(hero) && room {
            seq![
                ImageTarget {
                    area: Rect::clamped(clip(area.x + TEAM_HERO_COLUMN), y, 6, 2),
                    url: app.hero_images@[hero],
                },
            ]
        } else {
            Seq::empty()
        },
        None => Seq::empty(),
    }) + item_targets(
        item_slots(player),
        app.item_images@,
        clip(area.x + TEAM_ITEMS_COLUMN),
        y,
        2,
        room,
        6,
    )
}

/// The pictures of the first `count` rows of a team table: rows of two
/// cells from the third row of the area on, and none from the first row on
/// that does not end above the area's last row.
pub open spec fn team_targets(app: App, players: Seq<&MatchPlayer>, area: Rect, count: nat) -> Seq<
    ImageTarget,
>
    decreases count,
{
    if count == 0 || count > players.len() {
        Seq::empty()
    } else {
        let y = clip(area.y + 2 + 2 * (count - 1));
        if area.holds_row(y, 2) {
            team_targets(app, players, area, (count - 1) as nat) + team_row_targets(
                app,
                *players[count - 1],
                area,
                y,
            )
        } else {
            team_targets(app, players, area, (count - 1) as nat)
        }
    }
}

proof fn lemma_team_rows_end(app: App, players: Seq<&MatchPlayer>, area: Rect, from: nat, to: nat)
    requires
        from <= to <= players.len(),
        !area.holds_row(clip(area.y + 2 + 2 * from), 2),
    ensures
        team_targets(app, players, area, to) == team_targets(app, players, area, from),
    decreases to - from,
{
    if from < to {
        lemma_team_rows_end(app, players, area, from, (to - 1) as nat);
    }
}

pub fn push_team_images(app: &App, players: &[&MatchPlayer], area: Rect, images: &mut Vec<ImageTarget>)
    ensures
        final(images)@ == old(images)@ + team_targets(*app, players@, area, players@.len()),
{
    let hero_x = add_clipped(area.x, TEAM_HERO_COLUMN);
    let player_x = add_clipped(area.x, TEAM_PLAYER_COLUMN);
    let items_x = add_clipped(area.x, TEAM_ITEMS_COLUMN);
    let mut y = add_clipped(area.y, 2);
    let mut i: usize = 0;
    assert(images@ =~= old(images)@ + team_targets(*app, players@, area, 0));
    while i < players.len() && area.has_room(y, 2)
        invariant
            i <= players@.len(),
            hero_x == clip(area.x + TEAM_HERO_COLUMN),
            player_x == clip(area.x + TEAM_PLAYER_COLUMN),
            items_x == clip(area.x + TEAM_ITEMS_COLUMN),
            y == clip(area.y + 2 + 2 * i),
            images@ == old(images)@ + team_targets(*app, players@, area, i as nat),
        decreases players.len() - i,
    {
        let player = players[i];
        let ghost before = images@;
        if let Some(id) = player.account_id {
            if let Some(url) = app.player_avatars.get(&id) {
                images.push(ImageTarget { area: Rect::new(player_x, y, 6, 2), url: url.clone() });
            }
        }
        if let Some(hero) = player.hero_id {
            if let Some(url) = app.hero_images.get(&hero) {
                images.push(ImageTarget { area: Rect::new(hero_x, y, 6, 2), url: url.clone() });
            }
        }
        push_item_images(player, &app.item_images, items_x, y, 2, true, images);
        assert(images@ =~= before + team_row_targets(*app, *player, area, y));
        assert(images@ =~= old(images)@ + team_targets(*app, players@, area, (i + 1) as nat));
        y = add_clipped(y, 2);
        i += 1;
    }
    proof {
        if i < players@.len() {
            lemma_team_rows_end(*app, players@, area, i as nat, players@.len());
        }
    }
}

/// The picture of the player on screen: eight by six cells inside the frame
/// of the avatar panel, where the player has a picture.
pub open spec fn avatar_targets(app: App, area: Rect) -> Seq<ImageTarget> {
    match app.avatar_url {
        Some(url) => seq![
            ImageTarget { area: Rect::clamped(clip(area.x + 1), clip(area.y + 1), 8, 6), url },
        ],
        None => Seq::empty(),
    }
}

pub fn push_avatar_image(app: &App, area: Rect, images: &mut Vec<ImageTarget>)
    ensures
        final(images)@ == old(images)@ + avatar_targets(*app, area),
{
    if let Some(url) = &app.avatar_url {
        images.push(
            ImageTarget {
                area: Rect::new(add_clipped(area.x, 1), add_clipped(area.y, 1), 8, 6),
                url: url.clone(),
            },
        );
    }
    assert(images@ =~= old(images)@ + avatar_targets(*app, area));
}

/// The line of the status panel on which the progress of the requests is
/// drawn: the last line inside the frame.
pub fn progress_bar_area(panel: Rect) -> (bar: Rect)
    ensures
        bar == Rect::clamped(
            clip(panel.x + 1),
            clip(panel.y + clip(panel.height - 2)),
            clip(panel.width - 2),
            1,
        ),
{
    Rect::new(
        add_clipped(panel.x, 1),
        add_clipped(panel.y, crate::ui::sub_clipped(panel.height, 2)),
        crate::ui::sub_clipped(panel.width, 2),
        1,
    )
}

} // verus!
