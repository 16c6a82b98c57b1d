//! The texts of the interface, in English and in Chinese.

use crate::text::{chars_of, concat, decimal, is_text, lowered, push_decimal, push_signed_decimal,
    push_str, signed_decimal, string_from_chars, to_lower};
use vstd::prelude::*;

verus! {

#[derive(Clone, Copy, Debug, PartialEq, Eq, Structural)]
pub enum Language {
    En,
    Zh,
}

/// The texts of the interface in one language.
pub struct I18n {
    lang: Language,
}

/// Of two renderings of one text, the one that `lang` selects.
pub open spec fn pick(lang: Language, en: Seq<char>, zh: Seq<char>) -> Seq<char> {
    match lang {
        Language::En => en,
        Language::Zh => zh,
    }
}

/// The language that a configuration value names: Chinese for `zh`, `zh-cn`,
/// `zh_cn` and `cn` in any mix of ASCII case, English for everything else.
pub open spec fn language_of(value: Seq<char>) -> Language {
    let v = lowered(value);
    if v == "zh"@ || v == "zh-cn"@ || v == "zh_cn"@ || v == "cn"@ {
        Language::Zh
    } else {
        Language::En
    }
}

pub open spec fn unknown_text(lang: Language) -> Seq<char> {
    pick(lang, "Unknown"@, "未知"@)
}

pub open spec fn status_hero_loaded_text(lang: Language) -> Seq<char> {
    pick(lang, "Hero data loaded"@, "英雄数据已加载"@)
}

pub open spec fn status_match_loaded_text(lang: Language) -> Seq<char> {
    pick(lang, "Match details loaded"@, "比赛详情已加载"@)
}

pub open spec fn status_matches_loaded_text(lang: Language) -> Seq<char> {
    pick(lang, "Matches loaded. Use j/k and Enter for details"@, "比赛列表已加载，使用 j/k 和回车查看详情"@)
}

pub open spec fn status_no_matches_text(lang: Language) -> Seq<char> {
    pick(lang, "No matches found"@, "未找到比赛"@)
}

pub open spec fn status_search_cancelled_text(lang: Language) -> Seq<char> {
    pick(lang, "Search cancelled"@, "已取消搜索"@)
}

pub open spec fn status_need_id_text(lang: Language) -> Seq<char> {
    pick(lang, "Enter a SteamID64 or account_id"@, "请输入 SteamID64 或 account_id"@)
}

pub open spec fn status_invalid_id_text(lang: Language) -> Seq<char> {
    pick(lang, "Use account_id or SteamID64"@, "仅支持 account_id 或 SteamID64"@)
}

pub open spec fn time_now_text(lang: Language) -> Seq<char> {
    pick(lang, "now"@, "刚刚"@)
}

pub open spec fn loading_player_text(lang: Language) -> Seq<char> {
    pick(lang, "Loading..."@, "加载中..."@)
}

pub open spec fn no_player_loaded_text(lang: Language) -> Seq<char> {
    pick(lang, "No player loaded"@, "未加载玩家"@)
}

pub open spec fn label_name_text(lang: Language) -> Seq<char> {
    pick(lang, "Name"@, "昵称"@)
}

pub open spec fn label_steamid_text(lang: Language) -> Seq<char> {
    pick(lang, "SteamID64"@, "SteamID64"@)
}

pub open spec fn label_mmr_text(lang: Language) -> Seq<char> {
    pick(lang, "MMR estimate"@, "预估分数"@)
}

pub open spec fn anonymous_text(lang: Language) -> Seq<char> {
    pick(lang, "Anonymous"@, "匿名"@)
}

pub open spec fn result_win_text(lang: Language) -> Seq<char> {
    pick(lang, "W"@, "胜"@)
}

pub open spec fn result_loss_text(lang: Language) -> Seq<char> {
    pick(lang, "L"@, "败"@)
}

pub open spec fn status_hero_failed_text(lang: Language, err: Seq<char>) -> Seq<char> {
    pick(lang, "Hero load failed: "@ + err, "英雄数据加载失败: "@ + err)
}

pub open spec fn status_match_failed_text(lang: Language, err: Seq<char>) -> Seq<char> {
    pick(lang, "Match load failed: "@ + err, "比赛加载失败: "@ + err)
}

pub open spec fn status_search_failed_text(lang: Language, err: Seq<char>) -> Seq<char> {
    pick(lang, "Search failed: "@ + err, "搜索失败: "@ + err)
}

pub open spec fn status_matches_failed_text(lang: Language, err: Seq<char>) -> Seq<char> {
    pick(lang, "Matches load failed: "@ + err, "比赛列表加载失败: "@ + err)
}

pub open spec fn status_profile_failed_text(lang: Language, err: Seq<char>) -> Seq<char> {
    pick(lang, "Profile load failed: "@ + err, "玩家信息加载失败: "@ + err)
}

pub open spec fn status_image_failed_text(lang: Language, err: Seq<char>) -> Seq<char> {
    pick(lang, "Image load failed: "@ + err, "图片加载失败: "@ + err)
}

/// The placeholder for a value that is not known.
pub open spec fn placeholder_dash_text() -> Seq<char> {
    "-"@
}

pub open spec fn time_minutes_text(lang: Language, value: int) -> Seq<char> {
    signed_decimal(value) + pick(lang, "m"@, "分钟"@)
}

pub open spec fn time_hours_text(lang: Language, value: int) -> Seq<char> {
    signed_decimal(value) + pick(lang, "h"@, "小时"@)
}

pub open spec fn time_days_text(lang: Language, value: int) -> Seq<char> {
    signed_decimal(value) + pick(lang, "d"@, "天"@)
}

/// Matches played, matches won and matches lost, one to a line. The losses
/// are what is left of the total once the wins are taken off, and never
/// fewer than none.
pub open spec fn quick_stats_text(lang: Language, total: nat, wins: nat) -> Seq<char> {
    let losses: nat = if wins <= total {
        (total - wins) as nat
    } else {
        0
    };
    pick(lang, "Recent matches: "@, "最近比赛: "@) + decimal(total) + pick(
        lang,
        "\nWins: "@,
        "\n胜场: "@,
    ) + decimal(wins) + pick(lang, "\nLosses: "@, "\n败场: "@) + decimal(losses)
}

pub open spec fn status_loading_player_text(lang: Language, account_id: u32) -> Seq<char> {
    pick(lang, "Loading player "@, "加载玩家 "@) + decimal(account_id as nat) + "..."@
}

pub open spec fn status_loading_match_text(lang: Language, match_id: u64) -> Seq<char> {
    pick(lang, "Loading match "@, "加载比赛 "@) + decimal(match_id as nat) + "..."@
}

/// The name of a game mode. A mode that the table does not hold is shown by
/// its number, and a missing one by the placeholder.
pub open spec fn game_mode_text(lang: Language, game_mode: Option<i32>) -> Seq<char> {
    match game_mode {
        None => placeholder_dash_text(),
        Some(mode) => {
            if mode == 0 {
                pick(lang, "Unknown"@, "未知"@)
            } else if mode == 1 {
                pick(lang, "All Pick"@, "全英雄选择"@)
            } else if mode == 2 {
                pick(lang, "Captains Mode"@, "队长模式"@)
            } else if mode == 3 {
                pick(lang, "Random Draft"@, "随机征召"@)
            } else if mode == 4 {
                pick(lang, "Single Draft"@, "单一征召"@)
            } else if mode == 5 {
                pick(lang, "All Random"@, "全随机"@)
            } else if mode == 6 {
                pick(lang, "Intro"@, "新手教程"@)
            } else if mode == 7 {
                pick(lang, "Diretide"@, "Diretide"@)
            } else if mode == 8 {
                pick(lang, "Reverse Captains Mode"@, "反向队长"@)
            } else if mode == 9 {
                pick(lang, "Greeviling"@, "Greeviling"@)
            } else if mode == 10 {
                pick(lang, "Tutorial"@, "教程"@)
            } else if mode == 11 {
                pick(lang, "Mid Only"@, "中路1v1"@)
            } else if mode == 12 {
                pick(lang, "Least Played"@, "最少使用"@)
            } else if mode == 13 {
                pick(lang, "Limited Heroes"@, "限制英雄"@)
            } else if mode == 14 {
                pick(lang, "Compendium Matchmaking"@, "宝典匹配"@)
            } else if mode == 15 {
                pick(lang, "Custom"@, "自定义"@)
            } else if mode == 16 {
                pick(lang, "Captains Draft"@, "队长征召"@)
            } else if mode == 17 {
                pick(lang, "Balanced Draft"@, "平衡征召"@)
            } else if mode == 18 {
                pick(lang, "Ability Draft"@, "技能征召"@)
            } else if mode == 19 {
                pick(lang, "Event"@, "活动"@)
            } else if mode == 20 {
                pick(lang, "All Random Death Match"@, "全随机死斗"@)
            } else if mode == 21 {
                pick(lang, "1v1 Mid"@, "1v1 中路"@)
            } else if mode == 22 {
                pick(lang, "All Draft"@, "全征召"@)
            } else if mode == 23 {
                pick(lang, "Turbo"@, "极速"@)
            } else if mode == 24 {
                pick(lang, "Mutation"@, "变异"@)
            } else if mode == 25 {
                pick(lang, "Coaches Challenge"@, "教练挑战"@)
            } else {
                signed_decimal(mode as int)
            }
        },
    }
}

impl I18n {
    /// The language of these texts.
    pub closed spec fn language(&self) -> Language {
        self.lang
    }

    pub fn new(lang: Language) -> (r: Self)
        ensures
            r.language() == lang,
    {
        Self { lang }
    }

    pub fn language_from_config(value: &str) -> (r: Language)
        ensures
            r == language_of(value@),
    {
        let chars = chars_of(value);
        let lower = to_lower(&chars);
        if is_text(&lower, "zh") || is_text(&lower, "zh-cn") || is_text(&lower, "zh_cn") || is_text(
            &lower,
            "cn",
        ) {
            Language::Zh
        } else {
            Language::En
        }
    }

    pub fn is_zh(&self) -> (r: bool)
        ensures
            r == (self.language() == Language::Zh),
    {
        match self.lang {
            Language::Zh => true,
            Language::En => false,
        }
    }

    pub fn title_results(&self) -> (r: &str)
        ensures
            r@ == pick(self.language(), "Search Results"@, "搜索结果"@),
    {
        match self.lang {
            Language::En => "Search Results",
            Language::Zh => "搜索结果",
        }
    }

    pub fn title_matches(&self) -> (r: &str)
        ensures
            r@ == pick(self.language(), "Matches"@, "比赛列表"@),
    {
        match self.lang {
            Language::En => "Matches",
            Language::Zh => "比赛列表",
        }
    }

    pub fn title_match_detail(&self) -> (r: &str)
        ensures
            r@ == pick(self.language(), "Match Detail"@, "比赛详情"@),
    {
        match self.lang {
            Language::En => "Match Detail",
            Language::Zh => "比赛详情",
        }
    }

    pub fn title_recent(&self) -> (r: &str)
        ensures
            r@ == pick(self.language(), "Recent"@, "最近搜索"@),
    {
        match self.lang {
            Language::En => "Recent",
            Language::Zh => "最近搜索",
        }
    }

    pub fn title_profile(&self) -> (r: &str)
        ensures
            r@ == pick(self.language(), "Profile"@, "玩家信息"@),
    {
        match self.lang {
            Language::En => "Profile",
            Language::Zh => "玩家信息",
        }
    }

    pub fn title_status(&self) -> (r: &str)
        ensures
            r@ == pick(self.language(), "Status"@, "状态"@),
    {
        match self.lang {
            Language::En => "Status",
            Language::Zh => "状态",
        }
    }

    pub fn title_views(&self) -> (r: &str)
        ensures
            r@ == pick(self.language(), "Views"@, "视图"@),
    {
        match self.lang {
            Language::En => "Views",
            Language::Zh => "视图",
        }
    }

    pub fn tab_overview(&self) -> (r: &str)
        ensures
            r@ == pick(self.language(), "Overview"@, "总览"@),
    {
        match self.lang {
            Language::En => "Overview",
            Language::Zh => "总览",
        }
    }

    pub fn tab_matches(&self) -> (r: &str)
        ensures
            r@ == pick(self.language(), "Matches"@, "比赛"@),
    {
        match self.lang {
            Language::En => "Matches",
            Language::Zh => "比赛",
        }
    }

    pub fn tab_stats(&self) -> (r: &str)
        ensures
            r@ == pick(self.language(), "Stats"@, "统计"@),
    {
        match self.lang {
            Language::En => "Stats",
            Language::Zh => "统计",
        }
    }

    pub fn table_hero(&self) -> (r: &str)
        ensures
            r@ == pick(self.language(), "Hero"@, "英雄"@),
    {
        match self.lang {
            Language::En => "Hero",
            Language::Zh => "英雄",
        }
    }

    pub fn table_player(&self) -> (r: &str)
        ensures
            r@ == pick(self.language(), "Player"@, "玩家"@),
    {
        match self.lang {
            Language::En => "Player",
            Language::Zh => "玩家",
        }
    }

    pub fn table_result(&self) -> (r: &str)
        ensures
            r@ == pick(self.language(), "W/L"@, "胜败"@),
    {
        match self.lang {
            Language::En => "W/L",
            Language::Zh => "胜败",
        }
    }

    pub fn table_mode(&self) -> (r: &str)
        ensures
            r@ == pick(self.language(), "Mode"@, "模式"@),
    {
        match self.lang {
            Language::En => "Mode",
            Language::Zh => "模式",
        }
    }

    pub fn table_duration(&self) -> (r: &str)
        ensures
            r@ == pick(self.language(), "Dur"@, "时长"@),
    {
        match self.lang {
            Language::En => "Dur",
            Language::Zh => "时长",
        }
    }

    pub fn table_time(&self) -> (r: &str)
        ensures
            r@ == pick(self.language(), "Time"@, "时间"@),
    {
        match self.lang {
            Language::En => "Time",
            Language::Zh => "时间",
        }
    }

    pub fn table_k(&self) -> (r: &str)
        ensures
            r@ == pick(self.language(), "K"@, "击杀"@),
    {
        match self.lang {
            Language::En => "K",
            Language::Zh => "击杀",
        }
    }

    pub fn table_d(&self) -> (r: &str)
        ensures
            r@ == pick(self.language(), "D"@, "死亡"@),
    {
        match self.lang {
            Language::En => "D",
            Language::Zh => "死亡",
        }
    }

    pub fn table_a(&self) -> (r: &str)
        ensures
            r@ == pick(self.language(), "A"@, "助攻"@),
    {
        match self.lang {
            Language::En => "A",
            Language::Zh => "助攻",
        }
    }

    pub fn table_gpm(&self) -> (r: &str)
        ensures
            r@ == pick(self.language(), "GPM"@, "金钱"@),
    {
        match self.lang {
            Language::En => "GPM",
            Language::Zh => "金钱",
        }
    }

    pub fn table_xpm(&self) -> (r: &str)
        ensures
            r@ == pick(self.language(), "XPM"@, "经验"@),
    {
        match self.lang {
            Language::En => "XPM",
            Language::Zh => "经验",
        }
    }

    pub fn table_net(&self) -> (r: &str)
        ensures
            r@ == pick(self.language(), "NET"@, "净值"@),
    {
        match self.lang {
            Language::En => "NET",
            Language::Zh => "净值",
        }
    }

    pub fn table_items(&self) -> (r: &str)
        ensures
            r@ == pick(self.language(), "Items"@, "物品"@),
    {
        match self.lang {
            Language::En => "Items",
            Language::Zh => "物品",
        }
    }

    pub fn result_win(&self) -> (r: &str)
        ensures
            r@ == result_win_text(self.language()),
    {
        match self.lang {
            Language::En => "W",
            Language::Zh => "胜",
        }
    }

    pub fn result_loss(&self) -> (r: &str)
        ensures
            r@ == result_loss_text(self.language()),
    {
        match self.lang {
            Language::En => "L",
            Language::Zh => "败",
        }
    }

    pub fn time_now(&self) -> (r: &str)
        ensures
            r@ == time_now_text(self.language()),
    {
        match self.lang {
            Language::En => "now",
            Language::Zh => "刚刚",
        }
    }

    pub fn time_minutes(&self, value: i64) -> (r: String)
        ensures
            r@ == time_minutes_text(self.language(), value as int),
    {
        let mut out: Vec<char> = Vec::new();
        push_signed_decimal(value, &mut out);
        match self.lang {
            Language::En => push_str("m", &mut out),
            Language::Zh => push_str("分钟", &mut out),
        }
        assert(out@ =~= time_minutes_text(self.language(), value as int));
        string_from_chars(&out)
    }

    pub fn time_hours(&self, value: i64) -> (r: String)
        ensures
            r@ == time_hours_text(self.language(), value as int),
    {
        let mut out: Vec<char> = Vec::new();
        push_signed_decimal(value, &mut out);
        match self.lang {
            Language::En => push_str("h", &mut out),
            Language::Zh => push_str("小时", &mut out),
        }
        assert(out@ =~= time_hours_text(self.language(), value as int));
        string_from_chars(&out)
    }

    pub fn time_days(&self, value: i64) -> (r: String)
        ensures
            r@ == time_days_text(self.language(), value as int),
    {
        let mut out: Vec<char> = Vec::new();
        push_signed_decimal(value, &mut out);
        match self.lang {
            Language::En => push_str("d", &mut out),
            Language::Zh => push_str("天", &mut out),
        }
        assert(out@ =~= time_days_text(self.language(), value as int));
        string_from_chars(&out)
    }

    pub fn match_wait(&self) -> (r: &str)
        ensures
            r@ == pick(self.language(), "Select a match and press Enter"@, "选择一场比赛并回车查看"@),
    {
        match self.lang {
            Language::En => "Select a match and press Enter",
            Language::Zh => "选择一场比赛并回车查看",
        }
    }

    pub fn loading_detail(&self) -> (r: &str)
        ensures
            r@ == pick(self.language(), "Loading match details..."@, "加载比赛详情中..."@),
    {
        match self.lang {
            Language::En => "Loading match details...",
            Language::Zh => "加载比赛详情中...",
        }
    }

    pub fn no_recent(&self) -> (r: &str)
        ensures
            r@ == pick(self.language(), "No recent searches"@, "暂无搜索记录"@),
    {
        match self.lang {
            Language::En => "No recent searches",
            Language::Zh => "暂无搜索记录",
        }
    }

    pub fn keybind_title(&self) -> (r: &str)
        ensures
            r@ == pick(self.language(), "Keybinds"@, "快捷键"@),
    {
        match self.lang {
            Language::En => "Keybinds",
            Language::Zh => "快捷键",
        }
    }

    pub fn search_hint(&self) -> (r: &str)
        ensures
            r@ == pick(self.language(), "Search by account_id or SteamID64 only.\nExample: 135664392"@, "仅支持 account_id 或 SteamID64 搜索\n示例: 135664392"@),
    {
        match self.lang {
            Language::En => "Search by account_id or SteamID64 only.\nExample: 135664392",
            Language::Zh => "仅支持 account_id 或 SteamID64 搜索\n示例: 135664392",
        }
    }

    pub fn banner_subtitle(&self) -> (r: &str)
        ensures
            r@ == pick(self.language(), "TUI data explorer powered by OpenDota"@, "TUI 数据探索器 powered by OpenDota"@),
    {
        match self.lang {
            Language::En => "TUI data explorer powered by OpenDota",
            Language::Zh => "TUI 数据探索器 powered by OpenDota",
        }
    }

    /// The title of the search box, which says whether it is being typed in.
    pub fn input_search(&self, editing: bool) -> (r: &str)
        ensures
            r@ == if editing {
                pick(self.language(), "Search (editing)"@, "搜索（输入中）"@)
            } else {
                pick(self.language(), "Search (/)"@, "搜索（/）"@)
            },
    {
        match (self.lang, editing) {
            (Language::En, true) => "Search (editing)",
            (Language::En, false) => "Search (/)",
            (Language::Zh, true) => "搜索（输入中）",
            (Language::Zh, false) => "搜索（/）",
        }
    }

    pub fn title_quick_stats(&self) -> (r: &str)
        ensures
            r@ == pick(self.language(), "Quick stats"@, "快速统计"@),
    {
        match self.lang {
            Language::En => "Quick stats",
            Language::Zh => "快速统计",
        }
    }

    pub fn title_avatar(&self) -> (r: &str)
        ensures
            r@ == pick(self.language(), "Avatar"@, "头像"@),
    {
        match self.lang {
            Language::En => "Avatar",
            Language::Zh => "头像",
        }
    }

    pub fn title_loadout(&self) -> (r: &str)
        ensures
            r@ == pick(self.language(), "Loadout"@, "装备"@),
    {
        match self.lang {
            Language::En => "Loadout",
            Language::Zh => "装备",
        }
    }

    pub fn title_hints(&self) -> (r: &str)
        ensures
            r@ == pick(self.language(), "Hints"@, "提示"@),
    {
        match self.lang {
            Language::En => "Hints",
            Language::Zh => "提示",
        }
    }

    pub fn hint_tabs(&self) -> (r: &str)
        ensures
            r@ == pick(self.language(), "Use arrow keys to switch tabs"@, "使用左右方向键切换标签"@),
    {
        match self.lang {
            Language::En => "Use arrow keys to switch tabs",
            Language::Zh => "使用左右方向键切换标签",
        }
    }

    pub fn title_winrate(&self) -> (r: &str)
        ensures
            r@ == pick(self.language(), "Winrate"@, "胜率"@),
    {
        match self.lang {
            Language::En => "Winrate",
            Language::Zh => "胜率",
        }
    }

    pub fn title_recent_results(&self) -> (r: &str)
        ensures
            r@ == pick(self.language(), "Recent results"@, "近期结果"@),
    {
        match self.lang {
            Language::En => "Recent results",
            Language::Zh => "近期结果",
        }
    }

    pub fn title_summary(&self) -> (r: &str)
        ensures
            r@ == pick(self.language(), "Summary"@, "汇总"@),
    {
        match self.lang {
            Language::En => "Summary",
            Language::Zh => "汇总",
        }
    }

    pub fn label_name(&self) -> (r: &str)
        ensures
            r@ == label_name_text(self.language()),
    {
        match self.lang {
            Language::En => "Name",
            Language::Zh => "昵称",
        }
    }

    pub fn label_steamid(&self) -> (r: &str)
        ensures
            r@ == label_steamid_text(self.language()),
    {
        match self.lang {
            Language::En => "SteamID64",
            Language::Zh => "SteamID64",
        }
    }

    pub fn label_mmr(&self) -> (r: &str)
        ensures
            r@ == label_mmr_text(self.language()),
    {
        match self.lang {
            Language::En => "MMR estimate",
            Language::Zh => "预估分数",
        }
    }

    pub fn unknown(&self) -> (r: &str)
        ensures
            r@ == unknown_text(self.language()),
    {
        match self.lang {
            Language::En => "Unknown",
            Language::Zh => "未知",
        }
    }

    pub fn placeholder_dash(&self) -> (r: &str)
        ensures
            r@ == placeholder_dash_text(),
    {
        "-"
    }

    pub fn status_ready(&self) -> (r: &str)
        ensures
            r@ == pick(self.language(), "Press / to search by SteamID64 or account_id"@, "按 / 输入 SteamID64 或 account_id 搜索"@),
    {
        match self.lang {
            Language::En => "Press / to search by SteamID64 or account_id",
            Language::Zh => "按 / 输入 SteamID64 或 account_id 搜索",
        }
    }

    pub fn loading_player(&self) -> (r: &str)
        ensures
            r@ == loading_player_text(self.language()),
    {
        match self.lang {
            Language::En => "Loading...",
            Language::Zh => "加载中...",
        }
    }

    pub fn no_player_loaded(&self) -> (r: &str)
        ensures
            r@ == no_player_loaded_text(self.language()),
    {
        match self.lang {
            Language::En => "No player loaded",
            Language::Zh => "未加载玩家",
        }
    }

    pub fn quick_stats_format(&self, total: usize, wins: usize) -> (r: String)
        ensures
            r@ == quick_stats_text(self.language(), total as nat, wins as nat),
    {
        let losses: usize = if wins <= total {
            total - wins
        } else {
            0
        };
        let mut out: Vec<char> = Vec::new();
        match self.lang {
            Language::En => {
                push_str("Recent matches: ", &mut out);
                push_decimal(total as u64, &mut out);
                push_str("\nWins: ", &mut out);
                push_decimal(wins as u64, &mut out);
                push_str("\nLosses: ", &mut out);
                push_decimal(losses as u64, &mut out);
            },
            Language::Zh => {
                push_str("最近比赛: ", &mut out);
                push_decimal(total as u64, &mut out);
                push_str("\n胜场: ", &mut out);
                push_decimal(wins as u64, &mut out);
                push_str("\n败场: ", &mut out);
                push_decimal(losses as u64, &mut out);
            },
        }
        assert(out@ =~= quick_stats_text(self.language(), total as nat, wins as nat));
        string_from_chars(&out)
    }

    pub fn status_search_cancelled(&self) -> (r: &str)
        ensures
            r@ == status_search_cancelled_text(self.language()),
    {
        match self.lang {
            Language::En => "Search cancelled",
            Language::Zh => "已取消搜索",
        }
    }

    pub fn status_need_id(&self) -> (r: &str)
        ensures
            r@ == status_need_id_text(self.language()),
    {
        match self.lang {
            Language::En => "Enter a SteamID64 or account_id",
            Language::Zh => "请输入 SteamID64 或 account_id",
        }
    }

    pub fn status_invalid_id(&self) -> (r: &str)
        ensures
            r@ == status_invalid_id_text(self.language()),
    {
        match self.lang {
            Language::En => "Use account_id or SteamID64",
            Language::Zh => "仅支持 account_id 或 SteamID64",
        }
    }

    pub fn status_loading_player(&self, account_id: u32) -> (r: String)
        ensures
            r@ == status_loading_player_text(self.language(), account_id),
    {
        let mut out: Vec<char> = Vec::new();
        match self.lang {
            Language::En => push_str("Loading player ", &mut out),
            Language::Zh => push_str("加载玩家 ", &mut out),
        }
        push_decimal(account_id as u64, &mut out);
        push_str("...", &mut out);
        assert(out@ =~= status_loading_player_text(self.language(), account_id));
        string_from_chars(&out)
    }

    pub fn status_loading_match(&self, match_id: u64) -> (r: String)
        ensures
            r@ == status_loading_match_text(self.language(), match_id),
    {
        let mut out: Vec<char> = Vec::new();
        match self.lang {
            Language::En => push_str("Loading match ", &mut out),
            Language::Zh => push_str("加载比赛 ", &mut out),
        }
        push_decimal(match_id as u64, &mut out);
        push_str("...", &mut out);
        assert(out@ =~= status_loading_match_text(self.language(), match_id));
        string_from_chars(&out)
    }

    pub fn status_hero_loaded(&self) -> (r: &str)
        ensures
            r@ == status_hero_loaded_text(self.language()),
    {
        match self.lang {
            Language::En => "Hero data loaded",
            Language::Zh => "英雄数据已加载",
        }
    }

    pub fn status_hero_failed(&self, err: &str) -> (r: String)
        ensures
            r@ == status_hero_failed_text(self.language(), err@),
    {
        match self.lang {
            Language::En => concat("Hero load failed: ", err),
            Language::Zh => concat("英雄数据加载失败: ", err),
        }
    }

    pub fn status_match_loaded(&self) -> (r: &str)
        ensures
            r@ == status_match_loaded_text(self.language()),
    {
        match self.lang {
            Language::En => "Match details loaded",
            Language::Zh => "比赛详情已加载",
        }
    }

    pub fn status_match_failed(&self, err: &str) -> (r: String)
        ensures
            r@ == status_match_failed_text(self.language(), err@),
    {
        match self.lang {
            Language::En => concat("Match load failed: ", err),
            Language::Zh => concat("比赛加载失败: ", err),
        }
    }

    pub fn status_search_failed(&self, err: &str) -> (r: String)
        ensures
            r@ == status_search_failed_text(self.language(), err@),
    {
        match self.lang {
            Language::En => concat("Search failed: ", err),
            Language::Zh => concat("搜索失败: ", err),
        }
    }

    pub fn status_matches_loaded(&self) -> (r: &str)
        ensures
            r@ == status_matches_loaded_text(self.language()),
    {
        match self.lang {
            Language::En => "Matches loaded. Use j/k and Enter for details",
            Language::Zh => "比赛列表已加载，使用 j/k 和回车查看详情",
        }
    }

    pub fn status_no_matches(&self) -> (r: &str)
        ensures
            r@ == status_no_matches_text(self.language()),
    {
        match self.lang {
            Language::En => "No matches found",
            Language::Zh => "未找到比赛",
        }
    }

    pub fn status_matches_failed(&self, err: &str) -> (r: String)
        ensures
            r@ == status_matches_failed_text(self.language(), err@),
    {
        match self.lang {
            Language::En => concat("Matches load failed: ", err),
            Language::Zh => concat("比赛列表加载失败: ", err),
        }
    }

    pub fn status_profile_failed(&self, err: &str) -> (r: String)
        ensures
            r@ == status_profile_failed_text(self.language(), err@),
    {
        match self.lang {
            Language::En => concat("Profile load failed: ", err),
            Language::Zh => concat("玩家信息加载失败: ", err),
        }
    }

    pub fn status_image_failed(&self, err: &str) -> (r: String)
        ensures
            r@ == status_image_failed_text(self.language(), err@),
    {
        match self.lang {
            Language::En => concat("Image load failed: ", err),
            Language::Zh => concat("图片加载失败: ", err),
        }
    }

    /// The ten labels of the help window, in the order in which it lists them.
    pub fn help_labels(&self) -> (r: [&str; 10])
        ensures
            r@[0]@ == pick(self.language(), "Search"@, "搜索"@),
            r@[1]@ == pick(self.language(), "Quit"@, "退出"@),
            r@[2]@ == pick(self.language(), "Up/Down"@, "上/下"@),
            r@[3]@ == pick(self.language(), "Select"@, "选择"@),
            r@[4]@ == pick(self.language(), "Top/Bottom"@, "顶部/底部"@),
            r@[5]@ == pick(self.language(), "Clear input"@, "清空输入"@),
            r@[6]@ == pick(self.language(), "Tab next/prev"@, "切换标签"@),
            r@[7]@ == pick(self.language(), "Help"@, "帮助"@),
            r@[8]@ == pick(self.language(), "Keybinds"@, "快捷键"@),
            r@[9]@ == pick(self.language(), "Example"@, "示例"@),
    {
        match self.lang {
            Language::En => ["Search", "Quit", "Up/Down", "Select", "Top/Bottom", "Clear input", "Tab next/prev", "Help", "Keybinds", "Example"],
            Language::Zh => ["搜索", "退出", "上/下", "选择", "顶部/底部", "清空输入", "切换标签", "帮助", "快捷键", "示例"],
        }
    }

    pub fn help_group_search(&self) -> (r: &str)
        ensures
            r@ == pick(self.language(), "Search"@, "搜索"@),
    {
        match self.lang {
            Language::En => "Search",
            Language::Zh => "搜索",
        }
    }

    pub fn help_group_navigation(&self) -> (r: &str)
        ensures
            r@ == pick(self.language(), "Navigation"@, "导航"@),
    {
        match self.lang {
            Language::En => "Navigation",
            Language::Zh => "导航",
        }
    }

    pub fn help_group_views(&self) -> (r: &str)
        ensures
            r@ == pick(self.language(), "Views"@, "视图"@),
    {
        match self.lang {
            Language::En => "Views",
            Language::Zh => "视图",
        }
    }

    pub fn help_group_misc(&self) -> (r: &str)
        ensures
            r@ == pick(self.language(), "General"@, "通用"@),
    {
        match self.lang {
            Language::En => "General",
            Language::Zh => "通用",
        }
    }

    pub fn title_radiant(&self) -> (r: &str)
        ensures
            r@ == pick(self.language(), "Radiant"@, "天辉"@),
    {
        match self.lang {
            Language::En => "Radiant",
            Language::Zh => "天辉",
        }
    }

    pub fn title_dire(&self) -> (r: &str)
        ensures
            r@ == pick(self.language(), "Dire"@, "夜魇"@),
    {
        match self.lang {
            Language::En => "Dire",
            Language::Zh => "夜魇",
        }
    }

    pub fn anonymous(&self) -> (r: &str)
        ensures
            r@ == anonymous_text(self.language()),
    {
        match self.lang {
            Language::En => "Anonymous",
            Language::Zh => "匿名",
        }
    }

    pub fn format_game_mode(&self, game_mode: Option<i32>) -> (r: String)
        ensures
            r@ == game_mode_text(self.language(), game_mode),
    {
        let mode = match game_mode {
            Some(mode) => mode,
            None => {
                return crate::text::owned(self.placeholder_dash());
            },
        };
        let zh = self.is_zh();
        let name: &str = match mode {
            0 => if zh {
                "未知"
            } else {
                "Unknown"
            },
            1 => if zh {
                "全英雄选择"
            } else {
                "All Pick"
            },
            2 => if zh {
                "队长模式"
            } else {
                "Captains Mode"
            },
            3 => if zh {
                "随机征召"
            } else {
                "Random Draft"
            },
            4 => if zh {
                "单一征召"
            } else {
                "Single Draft"
            },
            5 => if zh {
                "全随机"
            } else {
                "All Random"
            },
            6 => if zh {
                "新手教程"
            } else {
                "Intro"
            },
            7 => if zh {
                "Diretide"
            } else {
                "Diretide"
            },
            8 => if zh {
                "反向队长"
            } else {
                "Reverse Captains Mode"
            },
            9 => if zh {
                "Greeviling"
            } else {
                "Greeviling"
            },
            10 => if zh {
                "教程"
            } else {
                "Tutorial"
            },
            11 => if zh {
                "中路1v1"
            } else {
                "Mid Only"
            },
            12 => if zh {
                "最少使用"
            } else {
                "Least Played"
            },
            13 => if zh {
                "限制英雄"
            } else {
                "Limited Heroes"
            },
            14 => if zh {
                "宝典匹配"
            } else {
                "Compendium Matchmaking"
            },
            15 => if zh {
                "自定义"
            } else {
                "Custom"
            },
            16 => if zh {
                "队长征召"
            } else {
                "Captains Draft"
            },
            17 => if zh {
                "平衡征召"
            } else {
                "Balanced Draft"
            },
            18 => if zh {
                "技能征召"
            } else {
                "Ability Draft"
            },
            19 => if zh {
                "活动"
            } else {
                "Event"
            },
            20 => if zh {
                "全随机死斗"
            } else {
                "All Random Death Match"
            },
            21 => if zh {
                "1v1 中路"
            } else {
                "1v1 Mid"
            },
            22 => if zh {
                "全征召"
            } else {
                "All Draft"
            },
            23 => if zh {
                "极速"
            } else {
                "Turbo"
            },
            24 => if zh {
                "变异"
            } else {
                "Mutation"
            },
            25 => if zh {
                "教练挑战"
            } else {
                "Coaches Challenge"
            },
            _ => {
                return crate::text::signed_decimal_string(mode as i64);
            },
        };
        crate::text::owned(name)
    }
}

} // verus!
