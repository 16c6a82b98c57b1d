use dota2_tui::i18n::{I18n, Language};

fn en() -> I18n {
    I18n::new(Language::En)
}

fn zh() -> I18n {
    I18n::new(Language::Zh)
}

#[test]
fn language_is_read_from_settings() {
    for value in ["zh", "ZH", "zh-cn", "Zh-CN", "zh_cn", "cn", "CN"] {
        assert_eq!(I18n::language_from_config(value), Language::Zh, "{value}");
    }
    for value in ["en", "", "zh ", "chinese", "zh-tw", "ｚｈ"] {
        assert_eq!(I18n::language_from_config(value), Language::En, "{value}");
    }
    assert!(zh().is_zh());
    assert!(!en().is_zh());
}

#[test]
fn titles_in_both_languages() {
    assert_eq!(en().title_results(), "Search Results");
    assert_eq!(zh().title_results(), "搜索结果");
    assert_eq!(en().title_matches(), "Matches");
    assert_eq!(zh().title_matches(), "比赛列表");
    assert_eq!(en().title_match_detail(), "Match Detail");
    assert_eq!(zh().title_match_detail(), "比赛详情");
    assert_eq!(en().title_recent(), "Recent");
    assert_eq!(zh().title_recent(), "最近搜索");
    assert_eq!(en().title_profile(), "Profile");
    assert_eq!(zh().title_profile(), "玩家信息");
    assert_eq!(en().title_status(), "Status");
    assert_eq!(zh().title_status(), "状态");
    assert_eq!(en().title_views(), "Views");
    assert_eq!(zh().title_views(), "视图");
    assert_eq!(en().title_quick_stats(), "Quick stats");
    assert_eq!(zh().title_quick_stats(), "快速统计");
    assert_eq!(en().title_avatar(), "Avatar");
    assert_eq!(zh().title_avatar(), "头像");
    assert_eq!(en().title_loadout(), "Loadout");
    assert_eq!(zh().title_loadout(), "装备");
    assert_eq!(en().title_hints(), "Hints");
    assert_eq!(zh().title_hints(), "提示");
    assert_eq!(en().title_winrate(), "Winrate");
    assert_eq!(zh().title_winrate(), "胜率");
    assert_eq!(en().title_recent_results(), "Recent results");
    assert_eq!(zh().title_recent_results(), "近期结果");
    assert_eq!(en().title_summary(), "Summary");
    assert_eq!(zh().title_summary(), "汇总");
    assert_eq!(en().title_radiant(), "Radiant");
    assert_eq!(zh().title_radiant(), "天辉");
    assert_eq!(en().title_dire(), "Dire");
    assert_eq!(zh().title_dire(), "夜魇");
    assert_eq!(en().keybind_title(), "Keybinds");
    assert_eq!(zh().keybind_title(), "快捷键");
}

#[test]
fn tabs_and_table_headers() {
    assert_eq!((en().tab_overview(), zh().tab_overview()), ("Overview", "总览"));
    assert_eq!((en().tab_matches(), zh().tab_matches()), ("Matches", "比赛"));
    assert_eq!((en().tab_stats(), zh().tab_stats()), ("Stats", "统计"));
    assert_eq!((en().table_hero(), zh().table_hero()), ("Hero", "英雄"));
    assert_eq!((en().table_player(), zh().table_player()), ("Player", "玩家"));
    assert_eq!((en().table_result(), zh().table_result()), ("W/L", "胜败"));
    assert_eq!((en().table_mode(), zh().table_mode()), ("Mode", "模式"));
    assert_eq!((en().table_duration(), zh().table_duration()), ("Dur", "时长"));
    assert_eq!((en().table_time(), zh().table_time()), ("Time", "时间"));
    assert_eq!((en().table_k(), zh().table_k()), ("K", "击杀"));
    assert_eq!((en().table_d(), zh().table_d()), ("D", "死亡"));
    assert_eq!((en().table_a(), zh().table_a()), ("A", "助攻"));
    assert_eq!((en().table_gpm(), zh().table_gpm()), ("GPM", "金钱"));
    assert_eq!((en().table_xpm(), zh().table_xpm()), ("XPM", "经验"));
    assert_eq!((en().table_net(), zh().table_net()), ("NET", "净值"));
    assert_eq!((en().table_items(), zh().table_items()), ("Items", "物品"));
    assert_eq!((en().result_win(), zh().result_win()), ("W", "胜"));
    assert_eq!((en().result_loss(), zh().result_loss()), ("L", "败"));
}

#[test]
fn labels_and_hints() {
    assert_eq!((en().label_name(), zh().label_name()), ("Name", "昵称"));
    assert_eq!((en().label_steamid(), zh().label_steamid()), ("SteamID64", "SteamID64"));
    assert_eq!((en().label_mmr(), zh().label_mmr()), ("MMR estimate", "预估分数"));
    assert_eq!((en().unknown(), zh().unknown()), ("Unknown", "未知"));
    assert_eq!((en().anonymous(), zh().anonymous()), ("Anonymous", "匿名"));
    assert_eq!((en().placeholder_dash(), zh().placeholder_dash()), ("-", "-"));
    assert_eq!(en().match_wait(), "Select a match and press Enter");
    assert_eq!(zh().match_wait(), "选择一场比赛并回车查看");
    assert_eq!(en().loading_detail(), "Loading match details...");
    assert_eq!(zh().loading_detail(), "加载比赛详情中...");
    assert_eq!(en().no_recent(), "No recent searches");
    assert_eq!(zh().no_recent(), "暂无搜索记录");
    assert_eq!(en().search_hint(), "Search by account_id or SteamID64 only.\nExample: 135664392");
    assert_eq!(zh().search_hint(), "仅支持 account_id 或 SteamID64 搜索\n示例: 135664392");
    assert_eq!(en().banner_subtitle(), "TUI data explorer powered by OpenDota");
    assert_eq!(zh().banner_subtitle(), "TUI 数据探索器 powered by OpenDota");
    assert_eq!(en().hint_tabs(), "Use arrow keys to switch tabs");
    assert_eq!(zh().hint_tabs(), "使用左右方向键切换标签");
    assert_eq!(en().loading_player(), "Loading...");
    assert_eq!(zh().loading_player(), "加载中...");
    assert_eq!(en().no_player_loaded(), "No player loaded");
    assert_eq!(zh().no_player_loaded(), "未加载玩家");
    assert_eq!(en().input_search(true), "Search (editing)");
    assert_eq!(en().input_search(false), "Search (/)");
    assert_eq!(zh().input_search(true), "搜索（输入中）");
    assert_eq!(zh().input_search(false), "搜索（/）");
}

#[test]
fn help_texts() {
    assert_eq!(
        en().help_labels(),
        [
            "Search",
            "Quit",
            "Up/Down",
            "Select",
            "Top/Bottom",
            "Clear input",
            "Tab next/prev",
            "Help",
            "Keybinds",
            "Example"
        ]
    );
    assert_eq!(
        zh().help_labels(),
        ["搜索", "退出", "上/下", "选择", "顶部/底部", "清空输入", "切换标签", "帮助", "快捷键", "示例"]
    );
    assert_eq!((en().help_group_search(), zh().help_group_search()), ("Search", "搜索"));
    assert_eq!((en().help_group_navigation(), zh().help_group_navigation()), ("Navigation", "导航"));
    assert_eq!((en().help_group_views(), zh().help_group_views()), ("Views", "视图"));
    assert_eq!((en().help_group_misc(), zh().help_group_misc()), ("General", "通用"));
}

#[test]
fn statuses() {
    assert_eq!(en().status_ready(), "Press / to search by SteamID64 or account_id");
    assert_eq!(zh().status_ready(), "按 / 输入 SteamID64 或 account_id 搜索");
    assert_eq!(en().status_search_cancelled(), "Search cancelled");
    assert_eq!(zh().status_search_cancelled(), "已取消搜索");
    assert_eq!(en().status_need_id(), "Enter a SteamID64 or account_id");
    assert_eq!(zh().status_need_id(), "请输入 SteamID64 或 account_id");
    assert_eq!(en().status_invalid_id(), "Use account_id or SteamID64");
    assert_eq!(zh().status_invalid_id(), "仅支持 account_id 或 SteamID64");
    assert_eq!(en().status_hero_loaded(), "Hero data loaded");
    assert_eq!(zh().status_hero_loaded(), "英雄数据已加载");
    assert_eq!(en().status_match_loaded(), "Match details loaded");
    assert_eq!(zh().status_match_loaded(), "比赛详情已加载");
    assert_eq!(en().status_matches_loaded(), "Matches loaded. Use j/k and Enter for details");
    assert_eq!(zh().status_matches_loaded(), "比赛列表已加载，使用 j/k 和回车查看详情");
    assert_eq!(en().status_no_matches(), "No matches found");
    assert_eq!(zh().status_no_matches(), "未找到比赛");
    assert_eq!(en().status_loading_player(135664392), "Loading player 135664392...");
    assert_eq!(zh().status_loading_player(0), "加载玩家 0...");
    assert_eq!(en().status_loading_match(u64::MAX), "Loading match 18446744073709551615...");
    assert_eq!(zh().status_loading_match(7), "加载比赛 7...");
    assert_eq!(en().status_hero_failed("x"), "Hero load failed: x");
    assert_eq!(zh().status_hero_failed("x"), "英雄数据加载失败: x");
    assert_eq!(en().status_match_failed("x"), "Match load failed: x");
    assert_eq!(zh().status_match_failed("x"), "比赛加载失败: x");
    assert_eq!(en().status_search_failed(""), "Search failed: ");
    assert_eq!(zh().status_search_failed("x"), "搜索失败: x");
    assert_eq!(en().status_matches_failed("x"), "Matches load failed: x");
    assert_eq!(zh().status_matches_failed("x"), "比赛列表加载失败: x");
    assert_eq!(en().status_profile_failed("x"), "Profile load failed: x");
    assert_eq!(zh().status_profile_failed("x"), "玩家信息加载失败: x");
    assert_eq!(en().status_image_failed("x"), "Image load failed: x");
    assert_eq!(zh().status_image_failed("错误"), "图片加载失败: 错误");
}

#[test]
fn times_and_counts() {
    assert_eq!((en().time_now(), zh().time_now()), ("now", "刚刚"));
    assert_eq!(en().time_minutes(5), "5m");
    assert_eq!(zh().time_minutes(59), "59分钟");
    assert_eq!(en().time_hours(23), "23h");
    assert_eq!(zh().time_hours(1), "1小时");
    assert_eq!(en().time_days(400), "400d");
    assert_eq!(zh().time_days(0), "0天");
    assert_eq!(en().time_minutes(-3), "-3m");
    assert_eq!(en().time_days(i64::MIN), "-9223372036854775808d");
    assert_eq!(en().time_days(i64::MAX), "9223372036854775807d");
    assert_eq!(en().quick_stats_format(20, 12), "Recent matches: 20\nWins: 12\nLosses: 8");
    assert_eq!(zh().quick_stats_format(20, 12), "最近比赛: 20\n胜场: 12\n败场: 8");
    assert_eq!(en().quick_stats_format(3, 5), "Recent matches: 3\nWins: 5\nLosses: 0");
    assert_eq!(en().quick_stats_format(0, 0), "Recent matches: 0\nWins: 0\nLosses: 0");
}

#[test]
fn game_modes() {
    let en_names = [
        "Unknown",
        "All Pick",
        "Captains Mode",
        "Random Draft",
        "Single Draft",
        "All Random",
        "Intro",
        "Diretide",
        "Reverse Captains Mode",
        "Greeviling",
        "Tutorial",
        "Mid Only",
        "Least Played",
        "Limited Heroes",
        "Compendium Matchmaking",
        "Custom",
        "Captains Draft",
        "Balanced Draft",
        "Ability Draft",
        "Event",
        "All Random Death Match",
        "1v1 Mid",
        "All Draft",
        "Turbo",
        "Mutation",
        "Coaches Challenge",
    ];
    let zh_names = [
        "未知",
        "全英雄选择",
        "队长模式",
        "随机征召",
        "单一征召",
        "全随机",
        "新手教程",
        "Diretide",
        "反向队长",
        "Greeviling",
        "教程",
        "中路1v1",
        "最少使用",
        "限制英雄",
        "宝典匹配",
        "自定义",
        "队长征召",
        "平衡征召",
        "技能征召",
        "活动",
        "全随机死斗",
        "1v1 中路",
        "全征召",
        "极速",
        "变异",
        "教练挑战",
    ];
    for mode in 0..26 {
        assert_eq!(en().format_game_mode(Some(mode)), en_names[mode as usize]);
        assert_eq!(zh().format_game_mode(Some(mode)), zh_names[mode as usize]);
    }
    assert_eq!(en().format_game_mode(Some(26)), "26");
    assert_eq!(zh().format_game_mode(Some(-1)), "-1");
    assert_eq!(en().format_game_mode(Some(i32::MIN)), "-2147483648");
    assert_eq!(en().format_game_mode(None), "-");
    assert_eq!(zh().format_game_mode(None), "-");
}
