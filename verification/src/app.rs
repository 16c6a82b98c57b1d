//! The state behind the screen, the messages that background work sends to
//! it, and the one function that applies a message to the state.
//!
//! Applying a message never reads or writes anything outside the state. What
//! has to happen outside (a picture to fetch, an address book to save, a
//! search to log) comes back as a value for the caller to act on.

use crate::i18n::{
    status_hero_failed_text, status_hero_loaded_text, status_image_failed_text,
    status_match_failed_text, status_match_loaded_text, status_matches_failed_text,
    status_matches_loaded_text, status_no_matches_text, status_profile_failed_text,
    status_search_failed_text, unknown_text, I18n, Language,
};
use crate::models::{
    preferred_avatar, response_avatar, MatchDetail, MatchPlayer, PlayerMatch, PlayerProfile,
    PlayerResponse,
};
use crate::recency::{stored, Recency};
use crate::text::owned;
use crate::text_set::TextSet;
use std::collections::{HashMap, HashSet};
use vstd::prelude::*;

verus! {

broadcast use vstd::std_specs::hash::group_hash_axioms;

/// The number of recent searches that are kept.
pub const RECENT_LIMIT: usize = 5;

/// The number of pictures that are kept in memory.
pub const IMAGE_CACHE_LIMIT: usize = 256;

#[derive(Clone, Copy, Debug, PartialEq, Eq, Structural)]
pub enum InputMode {
    Normal,
    Editing,
}

/// One search that was made: whose account, and under what name and picture.
#[derive(Clone, Debug)]
pub struct SearchEntry {
    pub account_id: u32,
    pub personaname: String,
    pub avatar_url: Option<String>,
}

/// The cursor of a list: the index of the selected row, if one is selected.
#[derive(Clone, Copy, Debug)]
pub struct ListState {
    pub selected: Option<usize>,
}

impl ListState {
    pub fn select(&mut self, index: Option<usize>)
        ensures
            final(self).selected == index,
    {
        self.selected = index;
    }

    pub fn selected(&self) -> (r: Option<usize>)
        ensures
            r == self.selected,
    {
        self.selected
    }
}

pub struct App {
    pub input: String,
    pub input_mode: InputMode,
    pub should_quit: bool,
    pub status: String,
    pub account_id: Option<u32>,
    pub profile: Option<PlayerResponse>,
    pub matches: Vec<PlayerMatch>,
    pub match_state: ListState,
    pub match_detail: Option<MatchDetail>,
    pub recent_searches: Vec<SearchEntry>,
    pub recent_index: Option<usize>,
    pub recent_active: bool,
    pub heroes: HashMap<i32, String>,
    pub hero_images: HashMap<i32, String>,
    pub item_images: HashMap<i32, String>,
    /// The pictures in memory by address, the newest first.
    pub image_cache: Recency<Vec<u8>>,
    pub player_avatars: HashMap<u32, String>,
    pub player_avatar_requests: HashSet<u32>,
    pub pending_player_avatar_ids: Vec<u32>,
    /// The addresses of the pictures that are being fetched.
    pub image_inflight: TextSet,
    pub loading: bool,
    pub detail_loading: bool,
    pub avatar_url: Option<String>,
    pub avatar_loading: bool,
    pub tab_index: usize,
    pub tick: u64,
    pub show_help: bool,
    pub banner_shimmer: u8,
    pub requested_hero_images: bool,
    pub requested_item_images: bool,
    pub image_reset: bool,
    /// When the list was last moved through, in milliseconds.
    pub last_nav: u64,
    pub net_total: usize,
    pub net_done: usize,
    pub net_inflight: usize,
    pub net_last_ms: Option<u128>,
}

/// Whether any picture is being fetched.
pub open spec fn busy(inflight: Set<Seq<char>>) -> bool {
    inflight != Set::<Seq<char>>::empty()
}

/// The index of the first entry for `account_id`, if there is one.
pub open spec fn first_search_of(recent: Seq<SearchEntry>, account_id: u32) -> Option<int>
    decreases recent.len(),
{
    if recent.len() == 0 {
        None
    } else if recent[0].account_id == account_id {
        Some(0)
    } else {
        match first_search_of(recent.drop_first(), account_id) {
            Some(i) => Some(i + 1),
            None => None,
        }
    }
}

/// The recent searches after `entry` was made: `entry` in front, the first
/// older entry of the same account gone, and no more than five kept.
pub open spec fn pushed_recent(recent: Seq<SearchEntry>, entry: SearchEntry) -> Seq<SearchEntry> {
    let rest = match first_search_of(recent, entry.account_id) {
        Some(i) => recent.remove(i),
        None => recent,
    };
    let all = seq![entry] + rest;
    if all.len() > RECENT_LIMIT {
        all.take(RECENT_LIMIT as int)
    } else {
        all
    }
}

proof fn lemma_first_search_of(recent: Seq<SearchEntry>, account_id: u32, p: int)
    requires
        0 <= p <= recent.len(),
        forall|j: int| 0 <= j < p ==> (#[trigger] recent[j]).account_id != account_id,
        p < recent.len() ==> recent[p].account_id == account_id,
    ensures
        first_search_of(recent, account_id) == if p < recent.len() {
            Some(p)
        } else {
            None
        },
    decreases recent.len(),
{
    if recent.len() > 0 && p > 0 {
        let rest = recent.drop_first();
        assert forall|j: int| 0 <= j < p - 1 implies (#[trigger] rest[j]).account_id
            != account_id by {
            assert(recent[j + 1].account_id != account_id);
        }
        lemma_first_search_of(rest, account_id, p - 1);
    }
}

/// Puts a search in front of the recent ones and returns the entry for the
/// caller to append to the search log.
pub fn push_recent_search(
    recent: &mut Vec<SearchEntry>,
    account_id: u32,
    name: String,
    avatar_url: Option<String>,
) -> (logged: SearchEntry)
    ensures
        logged == (SearchEntry { account_id, personaname: name, avatar_url }),
        final(recent)@ == pushed_recent(old(recent)@, logged),
{
    let kept = SearchEntry {
        account_id,
        personaname: name.clone(),
        avatar_url: clone_text(&avatar_url),
    };
    let logged = SearchEntry { account_id, personaname: name, avatar_url };
    let mut i: usize = 0;
    while i < recent.len() && recent[i].account_id != account_id
        invariant
            i <= recent.len(),
            recent@ == old(recent)@,
            forall|j: int| 0 <= j < i ==> (#[trigger] recent@[j]).account_id != account_id,
        decreases recent.len() - i,
    {
        i += 1;
    }
    proof {
        lemma_first_search_of(recent@, account_id, i as int);
    }
    if i < recent.len() {
        recent.remove(i);
    }
    recent.insert(0, kept);
    if recent.len() > RECENT_LIMIT {
        recent.truncate(RECENT_LIMIT);
    }
    assert(recent@ =~= pushed_recent(old(recent)@, logged));
    logged
}

/// A copy of an optional text.
pub fn clone_text(text: &Option<String>) -> (r: Option<String>)
    ensures
        r == *text,
{
    match text {
        Some(s) => Some(s.clone()),
        None => None,
    }
}

impl App {
    /// The state at start: nothing loaded, nothing selected but the first
    /// row of the match list, and the list free to move at once.
    pub fn new(now: u64) -> (app: Self)
        ensures
            app.input@ == Seq::<char>::empty(),
            app.input_mode == InputMode::Normal,
            !app.should_quit,
            app.status@ == Seq::<char>::empty(),
            app.account_id is None,
            app.profile is None,
            app.matches@ == Seq::<PlayerMatch>::empty(),
            app.match_state.selected == Some(0usize),
            app.match_detail is None,
            app.recent_searches@ == Seq::<SearchEntry>::empty(),
            app.recent_index is None,
            !app.recent_active,
            app.heroes@ == Map::<i32, String>::empty(),
            app.hero_images@ == Map::<i32, String>::empty(),
            app.item_images@ == Map::<i32, String>::empty(),
            app.image_cache@ == Seq::<(Seq<char>, Vec<u8>)>::empty(),
            app.image_cache.limit() == IMAGE_CACHE_LIMIT,
            app.player_avatars@ == Map::<u32, String>::empty(),
            app.player_avatar_requests@ == Set::<u32>::empty(),
            app.pending_player_avatar_ids@ == Seq::<u32>::empty(),
            app.image_inflight@ == Set::<Seq<char>>::empty(),
            !app.loading,
            !app.detail_loading,
            app.avatar_url is None,
            !app.avatar_loading,
            app.tab_index == 0,
            app.tick == 0,
            !app.show_help,
            app.banner_shimmer == 24,
            !app.requested_hero_images,
            !app.requested_item_images,
            !app.image_reset,
            app.last_nav == if now >= 1000 {
                (now - 1000) as u64
            } else {
                now
            },
            app.net_total == 0,
            app.net_done == 0,
            app.net_inflight == 0,
            app.net_last_ms is None,
    {
        App {
            input: String::new(),
            input_mode: InputMode::Normal,
            should_quit: false,
            status: String::new(),
            account_id: None,
            profile: None,
            matches: Vec::new(),
            match_state: ListState { selected: Some(0) },
            match_detail: None,
            recent_searches: Vec::new(),
            recent_index: None,
            recent_active: false,
            heroes: HashMap::new(),
            hero_images: HashMap::new(),
            item_images: HashMap::new(),
            image_cache: Recency::new(IMAGE_CACHE_LIMIT),
            player_avatars: HashMap::new(),
            player_avatar_requests: HashSet::new(),
            pending_player_avatar_ids: Vec::new(),
            image_inflight: TextSet::new(),
            loading: false,
            detail_loading: false,
            avatar_url: None,
            avatar_loading: false,
            tab_index: 0,
            tick: 0,
            show_help: false,
            banner_shimmer: 24,
            requested_hero_images: false,
            requested_item_images: false,
            image_reset: false,
            last_nav: if now >= 1000 {
                now - 1000
            } else {
                now
            },
            net_total: 0,
            net_done: 0,
            net_inflight: 0,
            net_last_ms: None,
        }
    }

    /// The match under the cursor, if the cursor is on one.
    pub fn selected_match(&self) -> (r: Option<&PlayerMatch>)
        ensures
            r == match self.match_state.selected {
                Some(i) => if i < self.matches@.len() {
                    Some(&self.matches@[i as int])
                } else {
                    None
                },
                None => None,
            },
    {
        match self.match_state.selected() {
            Some(i) => if i < self.matches.len() {
                Some(&self.matches[i])
            } else {
                None
            },
            None => None,
        }
    }

    /// The name of a hero, or the word for an unknown one.
    pub fn hero_name(&self, hero_id: i32, i18n: &I18n) -> (name: String)
        ensures
            name@ == if self.heroes@.contains_key(hero_id) {
                self.heroes@[hero_id]@
            } else {
                unknown_text(i18n.language())
            },
    {
        match self.heroes.get(&hero_id) {
            Some(name) => name.clone(),
            None => owned(i18n.unknown()),
        }
    }

    pub fn set_status(&mut self, msg: String)
        ensures
            *final(self) == (App { status: msg, ..*old(self) }),
    {
        self.status = msg;
    }

    /// Counts one tick, from the largest count back to zero, and lets the
    /// banner's shimmer run down.
    pub fn advance_tick(&mut self)
        ensures
            *final(self) == (App {
                tick: if old(self).tick == u64::MAX {
                    0
                } else {
                    (old(self).tick + 1) as u64
                },
                banner_shimmer: if old(self).banner_shimmer > 0 {
                    (old(self).banner_shimmer - 1) as u8
                } else {
                    0
                },
                ..*old(self)
            }),
    {
        self.tick = self.tick.wrapping_add(1);
        if self.banner_shimmer > 0 {
            self.banner_shimmer = self.banner_shimmer - 1;
        }
    }

    /// Empties the match list, puts the cursor on its first row and drops
    /// the open match.
    pub fn clear_matches(&mut self)
        ensures
            final(self).matches@ == Seq::<PlayerMatch>::empty(),
            *final(self) == (App {
                matches: final(self).matches,
                match_state: ListState { selected: Some(0usize) },
                match_detail: None,
                ..*old(self)
            }),
    {
        self.matches.clear();
        self.match_state.select(Some(0));
        self.match_detail = None;
    }

    /// Keeps a picture in memory under its address, as the newest one.
    pub fn cache_image(&mut self, url: String, bytes: Vec<u8>)
        ensures
            final(self).image_cache@ == stored(
                old(self).image_cache@,
                url@,
                bytes,
                old(self).image_cache.limit(),
            ),
            final(self).image_cache.limit() == old(self).image_cache.limit(),
            *final(self) == (App { image_cache: final(self).image_cache, ..*old(self) }),
    {
        self.image_cache.put(url, bytes);
    }

    /// Notes that the picture at `url` is now being fetched, unless it is
    /// already; says whether the caller is to fetch it.
    pub fn begin_image_fetch(&mut self, url: &str) -> (fetch: bool)
        ensures
            fetch == !old(self).image_inflight@.contains(url@),
            final(self).image_inflight@ == old(self).image_inflight@.insert(url@),
            *final(self) == (App { image_inflight: final(self).image_inflight, ..*old(self) }),
    {
        self.image_inflight.insert(owned(url))
    }

    /// Hands out the accounts whose pictures are waiting to be asked for,
    /// and leaves none waiting.
    pub fn take_pending_player_avatar_ids(&mut self) -> (ids: Vec<u32>)
        ensures
            ids@ == old(self).pending_player_avatar_ids@,
            final(self).pending_player_avatar_ids@ == Seq::<u32>::empty(),
            *final(self) == (App {
                pending_player_avatar_ids: final(self).pending_player_avatar_ids,
                ..*old(self)
            }),
    {
        let mut ids: Vec<u32> = Vec::new();
        core::mem::swap(&mut self.pending_player_avatar_ids, &mut ids);
        ids
    }

    /// Counts one more request as under way.
    pub fn count_request(&mut self)
        ensures
            *final(self) == (App {
                net_total: saturating_next(old(self).net_total),
                net_inflight: saturating_next(old(self).net_inflight),
                ..*old(self)
            }),
    {
        self.net_total = self.net_total.saturating_add(1);
        self.net_inflight = self.net_inflight.saturating_add(1);
    }

    /// Whether the hero pictures are to be asked for now: a player is
    /// loaded, no hero picture is known and none was asked for. Notes the
    /// request where it says yes.
    pub fn request_hero_images(&mut self) -> (ask: bool)
        ensures
            ask == (old(self).profile is Some && old(self).hero_images@.len() == 0 && !old(
                self,
            ).requested_hero_images),
            *final(self) == if ask {
                App {
                    requested_hero_images: true,
                    net_total: saturating_next(old(self).net_total),
                    net_inflight: saturating_next(old(self).net_inflight),
                    ..*old(self)
                }
            } else {
                *old(self)
            },
    {
        if self.profile.is_some() && self.hero_images.len() == 0 && !self.requested_hero_images {
            self.requested_hero_images = true;
            self.count_request();
            true
        } else {
            false
        }
    }

    /// Whether the item pictures are to be asked for now, on the same terms
    /// as the hero pictures.
    pub fn request_item_images(&mut self) -> (ask: bool)
        ensures
            ask == (old(self).profile is Some && old(self).item_images@.len() == 0 && !old(
                self,
            ).requested_item_images),
            *final(self) == if ask {
                App {
                    requested_item_images: true,
                    net_total: saturating_next(old(self).net_total),
                    net_inflight: saturating_next(old(self).net_inflight),
                    ..*old(self)
                }
            } else {
                *old(self)
            },
    {
        if self.profile.is_some() && self.item_images.len() == 0 && !self.requested_item_images {
            self.requested_item_images = true;
            self.count_request();
            true
        } else {
            false
        }
    }
}

/// One more than `n`, or `n` where there is no greater number.
pub open spec fn saturating_next(n: usize) -> usize {
    if n == usize::MAX {
        n
    } else {
        (n + 1) as usize
    }
}

/// What background work reports. An error is the text that describes it.
pub enum Message {
    HeroesLoaded(Result<HashMap<i32, String>, String>),
    HeroImagesLoaded(Result<HashMap<i32, String>, String>),
    ItemImagesLoaded(Result<HashMap<i32, String>, String>),
    SearchLoaded(Result<SearchPayload, String>),
    MatchDetailLoaded(Result<MatchDetail, String>),
    ImageLoaded { url: String, result: Result<Vec<u8>, String> },
    PlayerAvatarLoaded { account_id: u32, result: Result<Option<String>, String> },
    NetEvent { elapsed_ms: u128 },
}

/// What a search came to: the profile and the matches, each with the error
/// that took its place where it failed.
pub struct SearchPayload {
    pub account_id: u32,
    pub profile: Option<PlayerResponse>,
    pub matches: Vec<PlayerMatch>,
    pub profile_error: Option<String>,
    pub match_error: Option<String>,
}

impl SearchPayload {
    /// Puts the two halves of a search together. A half that failed leaves
    /// its error and an empty value; the other half is kept as it came.
    pub fn from_results(
        account_id: u32,
        profile: Result<PlayerResponse, String>,
        played: Result<Vec<PlayerMatch>, String>,
    ) -> (payload: SearchPayload)
        ensures
            payload.account_id == account_id,
            payload.profile == profile.ok(),
            payload.profile_error == profile.err(),
            payload.match_error == played.err(),
            (match played {
                Ok(list) => payload.matches == list,
                Err(_) => payload.matches@ == Seq::<PlayerMatch>::empty(),
            }),
    {
        let (profile, profile_error) = match profile {
            Ok(profile) => (Some(profile), None),
            Err(err) => (None, Some(err)),
        };
        let (matches, match_error) = match played {
            Ok(matches) => (matches, None),
            Err(err) => (Vec::new(), Some(err)),
        };
        SearchPayload { account_id, profile, matches, profile_error, match_error }
    }
}

/// The picture address that a fetched profile yields for a player of a
/// match: the profile's preferred picture, or the error that the fetch gave.
pub fn avatar_result(profile: Result<PlayerResponse, String>) -> (r: Result<Option<String>, String>)
    ensures
        r == match profile {
            Ok(p) => Ok::<Option<String>, String>(response_avatar(Some(p))),
            Err(e) => Err::<Option<String>, String>(e),
        },
{
    match profile {
        Ok(profile) => Ok(profile.avatar_choice()),
        Err(err) => Err(err),
    }
}

/// What the caller is to do once a message has been applied.
pub struct Effects {
    /// The picture to fetch for the player on screen.
    pub avatar_request: Option<String>,
    /// Whether the map from accounts to pictures is to be saved.
    pub save_avatars: bool,
    /// The search to append to the search log.
    pub recent: Option<SearchEntry>,
    /// The picture to write to the disk cache: its address, and its bytes
    /// as a PNG.
    pub disk_picture: Option<(String, Vec<u8>)>,
}

impl Effects {
    /// Nothing to do.
    pub open spec fn none(self) -> bool {
        self.avatar_request is None && !self.save_avatars && self.recent is None
            && self.disk_picture is None
    }
}

/// The status line after a search came in: the profile's error before the
/// matches' error, and where neither failed, whether any match was found.
pub open spec fn search_status(lang: Language, payload: SearchPayload) -> Seq<char> {
    match payload.profile_error {
        Some(err) => status_profile_failed_text(lang, err@),
        None => match payload.match_error {
            Some(err) => status_matches_failed_text(lang, err@),
            None => if payload.matches@.len() == 0 {
                status_no_matches_text(lang)
            } else {
                status_matches_loaded_text(lang)
            },
        },
    }
}

/// The picture to show for a search: the profile's preferred one, and where
/// the profile names none, the one that was known for the account before.
pub open spec fn shown_avatar(known: Map<u32, String>, payload: SearchPayload) -> Option<String> {
    match response_avatar(payload.profile) {
        Some(url) => Some(url),
        None => if known.contains_key(payload.account_id) {
            Some(known[payload.account_id])
        } else {
            None
        },
    }
}

/// The name under which a search is remembered.
pub open spec fn recent_name(lang: Language, profile: PlayerProfile) -> Seq<char> {
    match profile.personaname {
        Some(name) => name@,
        None => unknown_text(lang),
    }
}

/// The state and the effects after the result of a search.
pub open spec fn search_applied(
    pre: App,
    post: App,
    result: Result<SearchPayload, String>,
    lang: Language,
    out: Effects,
) -> bool {
    match result {
        Err(err) => {
            &&& post == (App {
                loading: false,
                status: post.status,
                avatar_loading: post.avatar_loading,
                ..pre
            })
            &&& post.status@ == status_search_failed_text(lang, err@)
            &&& out.none()
        },
        Ok(payload) => {
            let shown = shown_avatar(pre.player_avatars@, payload);
            &&& post == (App {
                loading: false,
                account_id: Some(payload.account_id),
                profile: payload.profile,
                matches: payload.matches,
                avatar_url: shown,
                player_avatars: post.player_avatars,
                status: post.status,
                match_state: ListState {
                    selected: if payload.match_error is None && payload.matches@.len() > 0 {
                        Some(0usize)
                    } else {
                        None
                    },
                },
                recent_searches: post.recent_searches,
                avatar_loading: post.avatar_loading,
                ..pre
            })
            &&& post.player_avatars@ == match shown {
                Some(url) => pre.player_avatars@.insert(payload.account_id, url),
                None => pre.player_avatars@,
            }
            &&& post.status@ == search_status(lang, payload)
            &&& out.avatar_request == shown
            &&& out.save_avatars == shown is Some
            &&& out.disk_picture is None
            &&& match payload.profile {
                Some(PlayerResponse { profile: Some(profile), .. }) => {
                    &&& out.recent matches Some(entry)
                    &&& entry.account_id == payload.account_id
                    &&& entry.personaname@ == recent_name(lang, profile)
                    &&& entry.avatar_url == preferred_avatar(profile)
                    &&& post.recent_searches@ == pushed_recent(pre.recent_searches@, entry)
                },
                _ => out.recent is None && post.recent_searches == pre.recent_searches,
            }
        },
    }
}

/// The known pictures with those of `disk` added for the accounts that had
/// none, the first of `disk` winning where it names an account twice.
pub open spec fn with_saved(known: Map<u32, String>, disk: Seq<(u32, String)>) -> Map<u32, String>
    decreases disk.len(),
{
    if disk.len() == 0 {
        known
    } else {
        let before = with_saved(known, disk.drop_last());
        if before.contains_key(disk.last().0) {
            before
        } else {
            before.insert(disk.last().0, disk.last().1)
        }
    }
}

/// The accounts among `players`, in their order and each once, that have no
/// known picture and for which none is being asked.
pub open spec fn missing_avatars(players: Seq<MatchPlayer>, known: Set<u32>, asked: Set<u32>) -> Seq<
    u32,
>
    decreases players.len(),
{
    if players.len() == 0 {
        Seq::empty()
    } else {
        let before = missing_avatars(players.drop_last(), known, asked);
        match players.last().account_id {
            Some(id) => if known.contains(id) || asked.contains(id) || before.contains(id) {
                before
            } else {
                before.push(id)
            },
            None => before,
        }
    }
}

/// No account is asked for twice, and none that has a picture or is already
/// asked for.
pub proof fn lemma_missing_avatars(players: Seq<MatchPlayer>, known: Set<u32>, asked: Set<u32>)
    ensures
        missing_avatars(players, known, asked).no_duplicates(),
        forall|id: u32| #[trigger]
            missing_avatars(players, known, asked).contains(id) ==> !known.contains(id)
                && !asked.contains(id),
        forall|id: u32| #[trigger]
            missing_avatars(players, known, asked).contains(id) ==> exists|i: int|
                0 <= i < players.len() && (#[trigger] players[i]).account_id == Some(id),
    decreases players.len(),
{
    let out = missing_avatars(players, known, asked);
    if players.len() > 0 {
        let rest = players.drop_last();
        let before = missing_avatars(rest, known, asked);
        lemma_missing_avatars(rest, known, asked);
        assert forall|id: u32| #[trigger] out.contains(id) implies !known.contains(id)
            && !asked.contains(id) && exists|i: int|
            0 <= i < players.len() && (#[trigger] players[i]).account_id == Some(id) by {
            let k = choose|k: int| 0 <= k < out.len() && out[k] == id;
            if k < before.len() {
                assert(before[k] == id);
                assert(before.contains(id));
                let i = choose|i: int|
                    0 <= i < rest.len() && (#[trigger] rest[i]).account_id == Some(id);
                assert(players[i].account_id == Some(id));
            } else {
                assert(players[players.len() - 1].account_id == Some(id));
            }
        }
    }
}

/// The state after the detail of a match.
pub open spec fn detail_applied(
    pre: App,
    post: App,
    result: Result<MatchDetail, String>,
    lang: Language,
    disk: Seq<(u32, String)>,
) -> bool {
    match result {
        Err(err) => {
            &&& post == (App {
                detail_loading: false,
                status: post.status,
                avatar_loading: post.avatar_loading,
                ..pre
            })
            &&& post.status@ == status_match_failed_text(lang, err@)
        },
        Ok(detail) => {
            let known = with_saved(pre.player_avatars@, disk);
            let missing = missing_avatars(detail.players@, known.dom(), pre.player_avatar_requests@);
            &&& post == (App {
                detail_loading: false,
                match_detail: Some(detail),
                status: post.status,
                player_avatars: post.player_avatars,
                player_avatar_requests: post.player_avatar_requests,
                pending_player_avatar_ids: post.pending_player_avatar_ids,
                avatar_loading: post.avatar_loading,
                ..pre
            })
            &&& post.status@ == status_match_loaded_text(lang)
            &&& post.player_avatars@ == known
            &&& post.player_avatar_requests@ == pre.player_avatar_requests@.union(missing.to_set())
            &&& post.pending_player_avatar_ids@ == if missing.len() > 0 {
                missing
            } else {
                pre.pending_player_avatar_ids@
            }
        },
    }
}

/// The state after a list of names or of picture addresses by id: the list
/// is taken over, or the failure shown.
pub open spec fn table_applied(
    pre: App,
    post: App,
    result: Result<HashMap<i32, String>, String>,
    lang: Language,
    which: TableKind,
) -> bool {
    match result {
        Err(err) => {
            &&& post == (App { status: post.status, avatar_loading: post.avatar_loading, ..pre })
            &&& post.status@ == status_hero_failed_text(lang, err@)
        },
        Ok(table) => match which {
            TableKind::HeroNames => {
                &&& post == (App {
                    heroes: table,
                    status: post.status,
                    avatar_loading: post.avatar_loading,
                    ..pre
                })
                &&& post.status@ == status_hero_loaded_text(lang)
            },
            TableKind::HeroImages => post == (App {
                hero_images: table,
                avatar_loading: post.avatar_loading,
                ..pre
            }),
            TableKind::ItemImages => post == (App {
                item_images: table,
                avatar_loading: post.avatar_loading,
                ..pre
            }),
        },
    }
}

/// The three tables that are loaded by id.
pub enum TableKind {
    HeroNames,
    HeroImages,
    ItemImages,
}

/// The state and the effects after a picture came in, or failed to. Either
/// way it is no longer being fetched. A picture that came in is brought into
/// the one format that is kept before it goes anywhere: the PNG is kept in
/// memory as the newest picture and handed out to be written to disk, and
/// bytes that hold no picture are kept nowhere. A fetch that failed is shown
/// in the status line.
pub open spec fn image_applied(
    pre: App,
    post: App,
    url: String,
    result: Result<Vec<u8>, String>,
    lang: Language,
    out: Effects,
) -> bool {
    &&& post.image_inflight@ == pre.image_inflight@.remove(url@)
    &&& out.avatar_request is None
    &&& !out.save_avatars
    &&& out.recent is None
    &&& match result {
        Ok(bytes) => match crate::image::as_png(bytes@) {
            Ok(png) => {
                &&& post == (App {
                    image_inflight: post.image_inflight,
                    image_cache: post.image_cache,
                    avatar_loading: post.avatar_loading,
                    ..pre
                })
                &&& exists|value: Vec<u8>|
                    value@ == png && post.image_cache@ == stored(
                        pre.image_cache@,
                        url@,
                        value,
                        pre.image_cache.limit(),
                    )
                &&& post.image_cache.limit() == pre.image_cache.limit()
                &&& out.disk_picture matches Some((address, written))
                &&& address == url
                &&& written@ == png
            },
            Err(_) => {
                &&& post == (App {
                    image_inflight: post.image_inflight,
                    avatar_loading: post.avatar_loading,
                    ..pre
                })
                &&& out.disk_picture is None
            },
        },
        Err(err) => {
            &&& post == (App {
                image_inflight: post.image_inflight,
                status: post.status,
                avatar_loading: post.avatar_loading,
                ..pre
            })
            &&& post.status@ == status_image_failed_text(lang, err@)
            &&& out.disk_picture is None
        },
    }
}

/// The state and the effects after the picture address of one player of a
/// match: the account is no longer asked for, and an address that was found
/// is remembered. Nothing of the player on screen changes.
pub open spec fn avatar_applied(
    pre: App,
    post: App,
    account_id: u32,
    result: Result<Option<String>, String>,
    out: Effects,
) -> bool {
    &&& post == (App {
        player_avatar_requests: post.player_avatar_requests,
        player_avatars: post.player_avatars,
        avatar_loading: post.avatar_loading,
        ..pre
    })
    &&& post.player_avatar_requests@ == pre.player_avatar_requests@.remove(account_id)
    &&& out.avatar_request is None
    &&& out.recent is None
    &&& out.disk_picture is None
    &&& match result {
        Ok(Some(url)) => post.player_avatars@ == pre.player_avatars@.insert(account_id, url)
            && out.save_avatars,
        _ => post.player_avatars == pre.player_avatars && !out.save_avatars,
    }
}

/// The progress counters after one request has ended.
pub open spec fn net_applied(pre: App, post: App, elapsed_ms: u128) -> bool {
    post == (App {
        net_last_ms: Some(elapsed_ms),
        net_inflight: if pre.net_inflight > 0 {
            (pre.net_inflight - 1) as usize
        } else {
            0
        },
        net_done: saturating_next(pre.net_done),
        avatar_loading: post.avatar_loading,
        ..pre
    })
}

/// The state and the effects after `msg`.
pub open spec fn applied(
    pre: App,
    post: App,
    msg: Message,
    lang: Language,
    disk: Seq<(u32, String)>,
    out: Effects,
) -> bool {
    &&& post.avatar_loading == busy(post.image_inflight@)
    &&& match msg {
        Message::HeroesLoaded(result) => table_applied(pre, post, result, lang, TableKind::HeroNames)
            && out.none(),
        Message::HeroImagesLoaded(result) => table_applied(
            pre,
            post,
            result,
            lang,
            TableKind::HeroImages,
        ) && out.none(),
        Message::ItemImagesLoaded(result) => table_applied(
            pre,
            post,
            result,
            lang,
            TableKind::ItemImages,
        ) && out.none(),
        Message::SearchLoaded(result) => search_applied(pre, post, result, lang, out),
        Message::MatchDetailLoaded(result) => detail_applied(pre, post, result, lang, disk)
            && out.none(),
        Message::ImageLoaded { url, result } => image_applied(pre, post, url, result, lang, out),
        Message::PlayerAvatarLoaded { account_id, result } => avatar_applied(
            pre,
            post,
            account_id,
            result,
            out,
        ),
        Message::NetEvent { elapsed_ms } => net_applied(pre, post, elapsed_ms) && out.none(),
    }
}

/// The picture address of a player of a match, whenever it arrives and for
/// whichever account, leaves the player on screen as they were: the account,
/// the profile and the picture shown all stay.
pub proof fn lemma_late_avatar_keeps_display(
    pre: App,
    post: App,
    account_id: u32,
    result: Result<Option<String>, String>,
    lang: Language,
    disk: Seq<(u32, String)>,
    out: Effects,
)
    requires
        applied(pre, post, Message::PlayerAvatarLoaded { account_id, result }, lang, disk, out),
    ensures
        post.avatar_url == pre.avatar_url,
        post.account_id == pre.account_id,
        post.profile == pre.profile,
        out.avatar_request is None,
{
}

/// After a search that went through, the cursor is on the first match where
/// there is one, and on none where there is none; an empty list without an
/// error says so in the status line.
pub proof fn lemma_search_sets_cursor(
    pre: App,
    post: App,
    payload: SearchPayload,
    lang: Language,
    disk: Seq<(u32, String)>,
    out: Effects,
)
    requires
        applied(pre, post, Message::SearchLoaded(Ok(payload)), lang, disk, out),
    ensures
        post.matches == payload.matches,
        post.account_id == Some(payload.account_id),
        payload.matches@.len() == 0 ==> post.match_state.selected is None,
        payload.matches@.len() > 0 && payload.match_error is None ==> post.match_state.selected
            == Some(0usize),
        payload.matches@.len() == 0 && payload.match_error is None && payload.profile_error is None
            ==> post.status@ == status_no_matches_text(lang),
{
}

fn no_effects() -> (out: Effects)
    ensures
        out.none(),
{
    Effects { avatar_request: None, save_avatars: false, recent: None, disk_picture: None }
}

fn apply_table(
    app: &mut App,
    result: Result<HashMap<i32, String>, String>,
    i18n: &I18n,
    which: TableKind,
)
    ensures
        table_applied(*old(app), *final(app), result, i18n.language(), which),
{
    match result {
        Ok(table) => match which {
            TableKind::HeroNames => {
                app.heroes = table;
                app.status = owned(i18n.status_hero_loaded());
            },
            TableKind::HeroImages => {
                app.hero_images = table;
            },
            TableKind::ItemImages => {
                app.item_images = table;
            },
        },
        Err(err) => {
            app.status = i18n.status_hero_failed(err.as_str());
        },
    }
}

/// Settles which picture to show for a search, and remembers it for the
/// account.
fn settle_avatar(
    profile: &Option<PlayerResponse>,
    known: &mut HashMap<u32, String>,
    account_id: u32,
) -> (shown: Option<String>)
    ensures
        shown == match response_avatar(*profile) {
            Some(url) => Some(url),
            None => if old(known)@.contains_key(account_id) {
                Some(old(known)@[account_id])
            } else {
                None
            },
        },
        final(known)@ == match shown {
            Some(url) => old(known)@.insert(account_id, url),
            None => old(known)@,
        },
{
    let mut shown: Option<String> = match profile {
        Some(response) => response.avatar_choice(),
        None => None,
    };
    if shown.is_none() {
        if let Some(url) = known.get(&account_id) {
            shown = Some(url.clone());
        }
    }
    if let Some(url) = &shown {
        known.insert(account_id, url.clone());
    }
    shown
}

fn search_status_line(
    i18n: &I18n,
    profile_error: &Option<String>,
    match_error: &Option<String>,
    no_matches: bool,
) -> (line: String)
    ensures
        line@ == match *profile_error {
            Some(err) => status_profile_failed_text(i18n.language(), err@),
            None => match *match_error {
                Some(err) => status_matches_failed_text(i18n.language(), err@),
                None => if no_matches {
                    status_no_matches_text(i18n.language())
                } else {
                    status_matches_loaded_text(i18n.language())
                },
            },
        },
{
    if let Some(err) = profile_error {
        return i18n.status_profile_failed(err.as_str());
    }
    match match_error {
        Some(err) => i18n.status_matches_failed(err.as_str()),
        None => if no_matches {
            owned(i18n.status_no_matches())
        } else {
            owned(i18n.status_matches_loaded())
        },
    }
}

/// Remembers a search whose profile came in, under the profile's name.
fn remember_search(
    recent: &mut Vec<SearchEntry>,
    profile: &Option<PlayerResponse>,
    account_id: u32,
    i18n: &I18n,
) -> (logged: Option<SearchEntry>)
    ensures
        match *profile {
            Some(PlayerResponse { profile: Some(p), .. }) => {
                &&& logged matches Some(entry)
                &&& entry.account_id == account_id
                &&& entry.personaname@ == recent_name(i18n.language(), p)
                &&& entry.avatar_url == preferred_avatar(p)
                &&& final(recent)@ == pushed_recent(old(recent)@, entry)
            },
            _ => logged is None && *final(recent) == *old(recent),
        },
{
    if let Some(response) = profile {
        if let Some(p) = &response.profile {
            let name = match &p.personaname {
                Some(name) => name.clone(),
                None => owned(i18n.unknown()),
            };
            let avatar = p.avatar_choice();
            return Some(push_recent_search(recent, account_id, name, avatar));
        }
    }
    None
}

fn apply_search(app: &mut App, result: Result<SearchPayload, String>, i18n: &I18n) -> (out: Effects)
    ensures
        search_applied(*old(app), *final(app), result, i18n.language(), out),
{
    app.loading = false;
    let payload = match result {
        Ok(payload) => payload,
        Err(err) => {
            app.status = i18n.status_search_failed(err.as_str());
            return no_effects();
        },
    };
    let account_id = payload.account_id;
    let no_matches = payload.matches.len() == 0;
    let shown = settle_avatar(&payload.profile, &mut app.player_avatars, account_id);
    let recent = remember_search(&mut app.recent_searches, &payload.profile, account_id, i18n);
    app.status = search_status_line(i18n, &payload.profile_error, &payload.match_error, no_matches);
    app.match_state = ListState {
        selected: if payload.match_error.is_none() && !no_matches {
            Some(0)
        } else {
            None
        },
    };
    app.account_id = Some(account_id);
    app.profile = payload.profile;
    app.matches = payload.matches;
    app.avatar_url = clone_text(&shown);
    app.avatar_loading = shown.is_some();
    let save_avatars = shown.is_some();
    Effects { avatar_request: shown, save_avatars, recent, disk_picture: None }
}

fn merge_saved(known: &mut HashMap<u32, String>, disk: Vec<(u32, String)>)
    ensures
        final(known)@ == with_saved(old(known)@, disk@),
{
    let ghost all = disk@;
    assert(all.take(0) =~= Seq::<(u32, String)>::empty());
    for entry in it: disk
        invariant
            it.seq() == all,
            known@ == with_saved(old(known)@, all.take(it.index() as int)),
    {
        proof {
            let n = it.index() as int;
            assert(all.take(n + 1).drop_last() =~= all.take(n));
            assert(all.take(n + 1).last() == entry);
        }
        let (id, url) = entry;
        if !known.contains_key(&id) {
            known.insert(id, url);
        }
    }
    assert(all.take(all.len() as int) =~= all);
}

fn collect_missing(
    players: &Vec<MatchPlayer>,
    known: &HashMap<u32, String>,
    asked: &mut HashSet<u32>,
) -> (missing: Vec<u32>)
    ensures
        missing@ == missing_avatars(players@, known@.dom(), old(asked)@),
        final(asked)@ == old(asked)@.union(missing@.to_set()),
{
    let mut missing: Vec<u32> = Vec::new();
    let mut i: usize = 0;
    assert(players@.take(0) =~= Seq::<MatchPlayer>::empty());
    assert(asked@ =~= old(asked)@.union(missing@.to_set()));
    while i < players.len()
        invariant
            i <= players.len(),
            missing@ == missing_avatars(players@.take(i as int), known@.dom(), old(asked)@),
            asked@ == old(asked)@.union(missing@.to_set()),
        decreases players.len() - i,
    {
        proof {
            assert(players@.take(i + 1).drop_last() =~= players@.take(i as int));
            assert(players@.take(i + 1).last() == players@[i as int]);
        }
        if let Some(id) = players[i].account_id {
            let ghost before = missing@;
            let ghost asked_before = asked@;
            if !known.contains_key(&id) {
                if asked.insert(id) {
                    missing.push(id);
                    proof {
                        assert(!before.contains(id)) by {
                            if before.contains(id) {
                                assert(before.to_set().contains(id));
                            }
                        }
                        assert(missing@.to_set() =~= before.to_set().insert(id)) by {
                            assert forall|x: u32|
                                missing@.to_set().contains(x) <==> before.to_set().insert(
                                    id,
                                ).contains(x) by {
                                if before.contains(x) {
                                    let k = choose|k: int| 0 <= k < before.len() && before[k] == x;
                                    assert(missing@[k] == x);
                                }
                                if x == id {
                                    assert(missing@[before.len() as int] == x);
                                }
                                if missing@.contains(x) {
                                    let k = choose|k: int|
                                        0 <= k < missing@.len() && missing@[k] == x;
                                    if k < before.len() {
                                        assert(before[k] == x);
                                    }
                                }
                            }
                        }
                        assert(asked@ =~= old(asked)@.union(missing@.to_set()));
                    }
                } else {
                    proof {
                        assert(asked@ =~= asked_before);
                        if before.contains(id) {
                        } else {
                            assert(!before.to_set().contains(id));
                            assert(old(asked)@.contains(id));
                        }
                    }
                }
            }
        }
        i += 1;
    }
    assert(players@.take(players@.len() as int) =~= players@);
    missing
}

fn apply_detail(
    app: &mut App,
    result: Result<MatchDetail, String>,
    i18n: &I18n,
    disk_avatars: Vec<(u32, String)>,
)
    ensures
        detail_applied(*old(app), *final(app), result, i18n.language(), disk_avatars@),
{
    app.detail_loading = false;
    match result {
        Ok(detail) => {
            app.status = owned(i18n.status_match_loaded());
            merge_saved(&mut app.player_avatars, disk_avatars);
            let missing = collect_missing(
                &detail.players,
                &app.player_avatars,
                &mut app.player_avatar_requests,
            );
            if missing.len() > 0 {
                app.pending_player_avatar_ids = missing;
            }
            app.match_detail = Some(detail);
        },
        Err(err) => {
            app.status = i18n.status_match_failed(err.as_str());
        },
    }
}

fn apply_image(app: &mut App, url: String, result: Result<Vec<u8>, String>, i18n: &I18n) -> (out:
    Effects)
    ensures
        image_applied(*old(app), *final(app), url, result, i18n.language(), out),
{
    app.avatar_loading = false;
    app.image_inflight.remove(url.as_str());
    match result {
        Ok(bytes) => match app.keep_fetched_picture(url.as_str(), bytes.as_slice()) {
            Some(png) => Effects {
                avatar_request: None,
                save_avatars: false,
                recent: None,
                disk_picture: Some((url, png)),
            },
            None => no_effects(),
        },
        Err(err) => {
            app.status = i18n.status_image_failed(err.as_str());
            no_effects()
        },
    }
}

fn apply_avatar(app: &mut App, account_id: u32, result: Result<Option<String>, String>) -> (out:
    Effects)
    ensures
        avatar_applied(*old(app), *final(app), account_id, result, out),
{
    app.player_avatar_requests.remove(&account_id);
    let mut save_avatars = false;
    if let Ok(Some(url)) = result {
        app.player_avatars.insert(account_id, url);
        save_avatars = true;
    }
    Effects { avatar_request: None, save_avatars, recent: None, disk_picture: None }
}

fn apply_net(app: &mut App, elapsed_ms: u128)
    ensures
        net_applied(*old(app), *final(app), elapsed_ms),
{
    app.net_last_ms = Some(elapsed_ms);
    if app.net_inflight > 0 {
        app.net_inflight = app.net_inflight - 1;
    }
    app.net_done = app.net_done.saturating_add(1);
}

/// Applies one message to the state and returns what the caller is to do.
/// `disk_avatars` is the saved map from accounts to pictures as it stands;
/// it is read only where the message is the detail of a match.
pub fn handle_message(
    msg: Message,
    app: &mut App,
    i18n: &I18n,
    disk_avatars: Vec<(u32, String)>,
) -> (out: Effects)
    ensures
        applied(*old(app), *final(app), msg, i18n.language(), disk_avatars@, out),
{
    let out = match msg {
        Message::HeroesLoaded(result) => {
            apply_table(app, result, i18n, TableKind::HeroNames);
            no_effects()
        },
        Message::HeroImagesLoaded(result) => {
            apply_table(app, result, i18n, TableKind::HeroImages);
            no_effects()
        },
        Message::ItemImagesLoaded(result) => {
            apply_table(app, result, i18n, TableKind::ItemImages);
            no_effects()
        },
        Message::SearchLoaded(result) => apply_search(app, result, i18n),
        Message::MatchDetailLoaded(result) => {
            apply_detail(app, result, i18n, disk_avatars);
            no_effects()
        },
        Message::ImageLoaded { url, result } => apply_image(app, url, result, i18n),
        Message::PlayerAvatarLoaded { account_id, result } => apply_avatar(app, account_id, result),
        Message::NetEvent { elapsed_ms } => {
            apply_net(app, elapsed_ms);
            no_effects()
        },
    };
    app.avatar_loading = !app.image_inflight.is_empty();
    out
}

/// Whether one of `entries` is a search for `account_id`.
pub open spec fn has_account(entries: Seq<SearchEntry>, account_id: u32) -> bool {
    exists|i: int| 0 <= i < entries.len() && (#[trigger] entries[i]).account_id == account_id
}

/// Whether the reading of the search log has taken enough entries.
pub open spec fn enough(taken: nat, max_entries: nat) -> bool {
    taken > 0 && taken >= max_entries
}

/// The recent searches that the last `count` lines of the search log give:
/// the newest line first, each account once, and no line looked at once
/// enough entries are taken. The first entry is always taken.
pub open spec fn newest_first(log: Seq<SearchEntry>, count: nat, max_entries: nat) -> Seq<
    SearchEntry,
>
    decreases count,
{
    if count == 0 || count > log.len() {
        Seq::empty()
    } else {
        let before = newest_first(log, (count - 1) as nat, max_entries);
        let entry = log[log.len() - count];
        if enough(before.len(), max_entries) || has_account(before, entry.account_id) {
            before
        } else {
            before.push(entry)
        }
    }
}

proof fn lemma_newest_first_stops(log: Seq<SearchEntry>, from: nat, to: nat, max_entries: nat)
    requires
        from <= to <= log.len(),
        enough(newest_first(log, from, max_entries).len(), max_entries),
    ensures
        newest_first(log, to, max_entries) == newest_first(log, from, max_entries),
    decreases to - from,
{
    if from < to {
        lemma_newest_first_stops(log, from, (to - 1) as nat, max_entries);
    }
}

/// The recent searches that the search log gives, newest first.
pub fn recent_from_log(log: Vec<SearchEntry>, max_entries: usize) -> (recent: Vec<SearchEntry>)
    ensures
        recent@ == newest_first(log@, log@.len(), max_entries as nat),
{
    let mut log = log;
    let ghost all = log@;
    let mut seen: HashSet<u32> = HashSet::new();
    let mut recent: Vec<SearchEntry> = Vec::new();
    while log.len() > 0 && (recent.len() == 0 || recent.len() < max_entries)
        invariant
            log@.len() <= all.len(),
            log@ == all.take(log@.len() as int),
            recent@ == newest_first(all, (all.len() - log@.len()) as nat, max_entries as nat),
            forall|id: u32| seen@.contains(id) <==> has_account(recent@, id),
        decreases log@.len(),
    {
        let ghost before = recent@;
        let ghost left = log@.len();
        let entry = log.pop().unwrap();
        assert(entry == all[left - 1]);
        assert(log@ =~= all.take(left - 1));
        let id = entry.account_id;
        if seen.insert(id) {
            recent.push(entry);
            proof {
                assert(recent@[before.len() as int].account_id == id);
                assert forall|x: u32| seen@.contains(x) <==> has_account(recent@, x) by {
                    if has_account(before, x) {
                        let i = choose|i: int|
                            0 <= i < before.len() && (#[trigger] before[i]).account_id == x;
                        assert(recent@[i].account_id == x);
                    }
                    if has_account(recent@, x) && x != id {
                        let i = choose|i: int|
                            0 <= i < recent@.len() && (#[trigger] recent@[i]).account_id == x;
                        assert(before[i].account_id == x);
                    }
                }
            }
        }
    }
    proof {
        if log@.len() > 0 {
            lemma_newest_first_stops(
                all,
                (all.len() - log@.len()) as nat,
                all.len(),
                max_entries as nat,
            );
        }
    }
    recent
}

/// The map from accounts to pictures that a list of pairs of texts gives:
/// each pair whose first text is the decimal numeral of an account id, with
/// or without a `+` before it; of two pairs for one account the later counts.
pub open spec fn avatars_of(pairs: Seq<(Seq<char>, String)>) -> Map<u32, String>
    decreases pairs.len(),
{
    if pairs.len() == 0 {
        Map::empty()
    } else {
        let before = avatars_of(pairs.drop_last());
        match crate::text::parse_unsigned(pairs.last().0, u32::MAX as nat) {
            Some(id) => before.insert(id as u32, pairs.last().1),
            None => before,
        }
    }
}

/// The pairs of a vector, the first text of each as its characters.
pub open spec fn keyed(pairs: Seq<(String, String)>) -> Seq<(Seq<char>, String)> {
    Seq::new(pairs.len(), |i: int| (pairs[i].0@, pairs[i].1))
}

/// Reads the entries of the saved map from accounts to pictures.
pub fn avatar_map_from_entries(pairs: Vec<(String, String)>) -> (map: HashMap<u32, String>)
    ensures
        map@ == avatars_of(keyed(pairs@)),
{
    let mut map: HashMap<u32, String> = HashMap::new();
    let ghost all = keyed(pairs@);
    assert(all.take(0) =~= Seq::<(Seq<char>, String)>::empty());
    for pair in it: pairs
        invariant
            it.seq() == pairs@,
            all == keyed(pairs@),
            map@ == avatars_of(all.take(it.index() as int)),
    {
        proof {
            let n = it.index() as int;
            assert(all.take(n + 1).drop_last() =~= all.take(n));
            assert(all.take(n + 1).last() == (pair.0@, pair.1));
        }
        let (key, value) = pair;
        let chars = crate::text::chars_of(key.as_str());
        if let Some(id) = crate::text::parse_unsigned_chars(&chars, 0xffff_ffff) {
            map.insert(id as u32, value);
        }
    }
    assert(all.take(all.len() as int) =~= all);
    map
}

/// The pairs of texts that the bytes of a JSON object of texts hold, in the
/// order of their keys, each key once; none where the bytes are no such
/// object.
pub uninterp spec fn json_text_pairs(bytes: Seq<u8>) -> Seq<(Seq<char>, Seq<char>)>;

/// The pairs of a vector, each text as its characters.
pub open spec fn text_pairs(pairs: Seq<(String, String)>) -> Seq<(Seq<char>, Seq<char>)> {
    Seq::new(pairs.len(), |i: int| (pairs[i].0@, pairs[i].1@))
}

/// `serde_json::from_slice` into a `BTreeMap` of strings, emptied on error:
/// the entries of the JSON object in the order of their keys.
#[verifier::external_body]
fn parse_text_pairs(bytes: &[u8]) -> (pairs: Vec<(String, String)>)
    ensures
        text_pairs(pairs@) == json_text_pairs(bytes@),
{
    let parsed: Result<std::collections::BTreeMap<String, String>, serde_json::Error> =
        serde_json::from_slice(bytes);
    parsed.unwrap_or_default().into_iter().collect()
}

/// The accounts that a list of pairs of texts names, each with the text of
/// its picture's address.
pub open spec fn avatar_texts_of(pairs: Seq<(Seq<char>, Seq<char>)>) -> Map<u32, Seq<char>>
    decreases pairs.len(),
{
    if pairs.len() == 0 {
        Map::empty()
    } else {
        let before = avatar_texts_of(pairs.drop_last());
        match crate::text::parse_unsigned(pairs.last().0, u32::MAX as nat) {
            Some(id) => before.insert(id as u32, pairs.last().1),
            None => before,
        }
    }
}

proof fn lemma_avatar_texts(pairs: Seq<(Seq<char>, String)>, texts: Seq<(Seq<char>, Seq<char>)>)
    requires
        pairs.len() == texts.len(),
        forall|i: int|
            0 <= i < pairs.len() ==> (#[trigger] pairs[i]).0 == texts[i].0 && pairs[i].1@
                == texts[i].1,
    ensures
        avatars_of(pairs).dom() == avatar_texts_of(texts).dom(),
        forall|id: u32| #[trigger]
            avatars_of(pairs).contains_key(id) ==> avatars_of(pairs)[id]@ == avatar_texts_of(
                texts,
            )[id],
    decreases pairs.len(),
{
    if pairs.len() > 0 {
        let p = pairs.drop_last();
        let t = texts.drop_last();
        assert forall|i: int| 0 <= i < p.len() implies (#[trigger] p[i]).0 == t[i].0 && p[i].1@
            == t[i].1 by {
            assert(pairs[i].0 == texts[i].0);
        }
        lemma_avatar_texts(p, t);
        assert(pairs[pairs.len() - 1].0 == texts[texts.len() - 1].0);
        assert(avatars_of(pairs).dom() =~= avatar_texts_of(texts).dom());
    } else {
        assert(avatars_of(pairs).dom() =~= avatar_texts_of(texts).dom());
    }
}

/// Reads the saved map from accounts to pictures out of the bytes of its
/// file. Bytes that are no JSON object of texts give an empty map.
pub fn load_avatar_map(bytes: &[u8]) -> (map: HashMap<u32, String>)
    ensures
        map@.dom() == avatar_texts_of(json_text_pairs(bytes@)).dom(),
        forall|id: u32| #[trigger]
            map@.contains_key(id) ==> map@[id]@ == avatar_texts_of(json_text_pairs(bytes@))[id],
{
    let pairs = parse_text_pairs(bytes);
    proof {
        let texts = json_text_pairs(bytes@);
        assert forall|i: int| 0 <= i < keyed(pairs@).len() implies (#[trigger] keyed(pairs@)[i]).0
            == texts[i].0 && keyed(pairs@)[i].1@ == texts[i].1 by {
            assert(text_pairs(pairs@)[i] == texts[i]);
        }
        lemma_avatar_texts(keyed(pairs@), texts);
    }
    avatar_map_from_entries(pairs)
}

/// A text without the run of `c` at its end.
pub open spec fn without_trailing(s: Seq<char>, c: char) -> Seq<char>
    decreases s.len(),
{
    if s.len() > 0 && s.last() == c {
        without_trailing(s.drop_last(), c)
    } else {
        s
    }
}

/// The address of a picture: the picture's own where it is a whole address,
/// else the path put behind the base, which loses the slashes at its end.
pub open spec fn asset_url(cdn_base: Seq<char>, img: Seq<char>) -> Seq<char> {
    if "http"@.is_prefix_of(img) {
        img
    } else {
        without_trailing(cdn_base, '/') + img
    }
}

/// The addresses of the pictures by id: of each entry that has a picture,
/// and of two entries with one id the later.
pub open spec fn asset_map(raw: Seq<(i32, Option<String>)>, cdn_base: Seq<char>) -> Map<
    i32,
    Seq<char>,
>
    decreases raw.len(),
{
    if raw.len() == 0 {
        Map::empty()
    } else {
        let before = asset_map(raw.drop_last(), cdn_base);
        match raw.last().1 {
            Some(img) => before.insert(raw.last().0, asset_url(cdn_base, img@)),
            None => before,
        }
    }
}

/// The texts of a map of strings.
pub open spec fn texts_of(map: Map<i32, String>) -> Map<i32, Seq<char>> {
    Map::new(|id: i32| map.contains_key(id), |id: i32| map[id]@)
}

fn trim_trailing(s: &Vec<char>, c: char) -> (out: Vec<char>)
    ensures
        out@ == without_trailing(s@, c),
{
    let mut end: usize = s.len();
    assert(s@.take(end as int) =~= s@);
    while end > 0 && s[end - 1] == c
        invariant
            end <= s.len(),
            without_trailing(s@, c) == without_trailing(s@.take(end as int), c),
        decreases end,
    {
        assert(s@.take(end as int).drop_last() =~= s@.take(end - 1));
        end -= 1;
    }
    let mut out: Vec<char> = Vec::new();
    let mut i: usize = 0;
    while i < end
        invariant
            i <= end <= s.len(),
            out@ == s@.take(i as int),
        decreases end - i,
    {
        out.push(s[i]);
        assert(s@.take(i + 1) =~= s@.take(i as int).push(s@[i as int]));
        i += 1;
    }
    out
}

/// Makes the addresses of the pictures of a constant table.
pub fn build_asset_map(raw: Vec<(i32, Option<String>)>, cdn_base: &str) -> (map: HashMap<
    i32,
    String,
>)
    ensures
        texts_of(map@) == asset_map(raw@, cdn_base@),
{
    let base = trim_trailing(&crate::text::chars_of(cdn_base), '/');
    let http = crate::text::chars_of("http");
    let mut map: HashMap<i32, String> = HashMap::new();
    let ghost all = raw@;
    assert(all.take(0) =~= Seq::<(i32, Option<String>)>::empty());
    assert(texts_of(map@) =~= asset_map(all.take(0), cdn_base@));
    for entry in it: raw
        invariant
            it.seq() == all,
            base@ == without_trailing(cdn_base@, '/'),
            http@ == "http"@,
            texts_of(map@) == asset_map(all.take(it.index() as int), cdn_base@),
    {
        let ghost before = map@;
        proof {
            let n = it.index() as int;
            assert(all.take(n + 1).drop_last() =~= all.take(n));
            assert(all.take(n + 1).last() == entry);
        }
        let (id, img) = entry;
        if let Some(img) = img {
            let path = crate::text::chars_of(img.as_str());
            let url = if crate::text::starts_with(&path, &http) {
                img
            } else {
                let mut whole: Vec<char> = Vec::new();
                crate::text::push_chars(&base, &mut whole);
                crate::text::push_chars(&path, &mut whole);
                crate::text::string_from_chars(&whole)
            };
            let ghost address = url@;
            map.insert(id, url);
            assert(texts_of(map@) =~= texts_of(before).insert(id, address));
        }
    }
    assert(all.take(all.len() as int) =~= all);
    map
}

/// What is to be done for a picture that the screen wants to show.
#[derive(Debug, Clone, Copy, PartialEq, Eq, Structural)]
pub enum PictureStep {
    /// It is in memory: draw it.
    Draw,
    /// It is being fetched: wait for it.
    Wait,
    /// It is neither: look for it on disk, and fetch it if it is not there.
    Look,
}

/// The bytes that are kept of a picture found on disk: its PNG encoding
/// where it has one, else the bytes as they are.
pub open spec fn kept_of_disk(bytes: Seq<u8>) -> Seq<u8> {
    match crate::image::as_png(bytes) {
        Ok(png) => png,
        Err(_) => bytes,
    }
}

impl App {
    /// What is to be done for the picture at `url`. A picture that is in
    /// memory is drawn, and one that is being fetched is never fetched again.
    pub fn picture_step(&self, url: &str) -> (step: PictureStep)
        ensures
            step == if crate::recency::has_key(self.image_cache@, url@) {
                PictureStep::Draw
            } else if self.image_inflight@.contains(url@) {
                PictureStep::Wait
            } else {
                PictureStep::Look
            },
    {
        if self.image_cache.contains_key(url) {
            PictureStep::Draw
        } else if self.image_inflight.contains(url) {
            PictureStep::Wait
        } else {
            PictureStep::Look
        }
    }

    /// Takes in a picture that was found on disk, keeps it in memory as the
    /// newest one, and returns the bytes that are kept, for drawing.
    pub fn keep_disk_picture(&mut self, url: &str, bytes: Vec<u8>) -> (kept: Vec<u8>)
        ensures
            kept@ == kept_of_disk(bytes@),
            exists|value: Vec<u8>|
                value@ == kept@ && final(self).image_cache@ == stored(
                    old(self).image_cache@,
                    url@,
                    value,
                    old(self).image_cache.limit(),
                ),
            final(self).image_cache.limit() == old(self).image_cache.limit(),
            *final(self) == (App { image_cache: final(self).image_cache, ..*old(self) }),
    {
        let kept = match crate::image::ensure_png(bytes.as_slice()) {
            Ok(png) => png,
            Err(_) => bytes,
        };
        let value = crate::api::copy_bytes(&kept);
        self.cache_image(owned(url), value);
        kept
    }

    /// Takes in a picture that was fetched. Where it can be made a PNG, the
    /// PNG is kept in memory as the newest picture and returned, to be
    /// written to disk; where it cannot, nothing is kept.
    pub fn keep_fetched_picture(&mut self, url: &str, bytes: &[u8]) -> (png: Option<Vec<u8>>)
        ensures
            match crate::image::as_png(bytes@) {
                Ok(encoded) => {
                    &&& png matches Some(p)
                    &&& p@ == encoded
                    &&& exists|value: Vec<u8>|
                        value@ == encoded && final(self).image_cache@ == stored(
                            old(self).image_cache@,
                            url@,
                            value,
                            old(self).image_cache.limit(),
                        )
                    &&& final(self).image_cache.limit() == old(self).image_cache.limit()
                    &&& *final(self) == (App { image_cache: final(self).image_cache, ..*old(self) })
                },
                Err(_) => png is None && *final(self) == *old(self),
            },
    {
        match crate::image::ensure_png(bytes) {
            Ok(png) => {
                let value = crate::api::copy_bytes(&png);
                self.cache_image(owned(url), value);
                Some(png)
            },
            Err(_) => None,
        }
    }
}

/// Where the map from accounts to pictures is saved, given the user's cache
/// root if the system names one: in the program's cache directory.
pub fn avatar_map_path(cache_root: Option<&str>) -> (r: Result<String, crate::config::ConfigError>)
    ensures
        match cache_root {
            Some(root) => r matches Ok(path) && path@ == crate::config::cache_dir_text(root@)
                + "/avatar_map.json"@,
            None => r matches Err(crate::config::ConfigError::NoCacheDirectory),
        },
{
    match crate::config::cache_dir(cache_root) {
        Ok(dir) => Ok(crate::text::concat(dir.as_str(), "/avatar_map.json")),
        Err(err) => Err(err),
    }
}

} // verus!
