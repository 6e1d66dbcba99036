use dfa_visualizer::config::AppConfig;
use dfa_visualizer::profile::{ProfileData, RankInfo};
use dfa_visualizer::tray::{
    click_action, click_position, default_position, menu_action, tray_tooltip, ClickAction, MenuAction,
};
use dfa_visualizer::watch::{
    any_game_process, baseline_timestamp, game_mode_step, is_game_process, refresh_interval_secs,
    TitleAction, UpdateWatch, WatchAction, WATCH_POLLS,
};

fn score() -> RankInfo {
    RankInfo {
        category: "Completion Score".to_string(),
        value: "45,210".to_string(),
        percentage: "88.4%".to_string(),
        world_rank: "1,234".to_string(),
        region_rank: "500+".to_string(),
        region_label: "EU".to_string(),
        realm_rank: String::new(),
        realm_label: "Silvermoon".to_string(),
    }
}

fn profile_with_score() -> ProfileData {
    let mut p = ProfileData::for_request("eu", "Silvermoon", "Arthas");
    p.completion_score = Some(score());
    p.updated_at = 100;
    p
}

#[test]
fn refresh_interval_in_seconds() {
    assert_eq!(refresh_interval_secs(30), 1800);
    assert_eq!(refresh_interval_secs(0), 0);
    assert_eq!(refresh_interval_secs(u32::MAX), 257698037700);
    assert_eq!(refresh_interval_secs(AppConfig::default().refresh_interval_minutes), 1800);
}

#[test]
fn baseline_from_profile() {
    assert_eq!(baseline_timestamp(&None), 0);
    assert_eq!(baseline_timestamp(&Some(profile_with_score())), 100);
}

#[test]
fn watch_refreshes_on_change() {
    let mut w = UpdateWatch::start(100);
    assert_eq!(w.polls_left, WATCH_POLLS);
    assert_eq!(w.observe(None), WatchAction::Wait);
    assert_eq!(w.observe(Some(100)), WatchAction::Wait);
    assert_eq!(w.observe(Some(150)), WatchAction::Refresh);
    assert_eq!(w.polls_left, WATCH_POLLS - 3);
}

#[test]
fn watch_without_baseline_never_refreshes() {
    let mut w = UpdateWatch::start(0);
    let mut actions = Vec::new();
    while w.polls_left > 0 {
        actions.push(w.observe(Some(12345)));
    }
    assert_eq!(actions.len(), 120);
    assert!(actions[..119].iter().all(|a| *a == WatchAction::Wait));
    assert_eq!(actions[119], WatchAction::GiveUp);
}

#[test]
fn game_process_names() {
    assert!(is_game_process("World of Warcraft"));
    assert!(is_game_process("Wow.exe"));
    assert!(is_game_process("WowClassic"));
    assert!(!is_game_process("Battle.net"));
    assert!(any_game_process(&vec!["bash".to_string(), "WOW".to_string()]));
    assert!(!any_game_process(&vec!["bash".to_string(), "firefox".to_string()]));
    assert!(!any_game_process(&vec![]));
}

#[test]
fn game_mode_title_changes_only_on_transitions() {
    let p = Some(profile_with_score());
    let (r, a) = game_mode_step(false, true, &p);
    assert!(r);
    match a {
        TitleAction::Show(t) => assert_eq!(t, "45,210 (#1,234)"),
        _ => panic!("expected a title"),
    }
    assert!(matches!(game_mode_step(true, true, &p), (true, TitleAction::Keep)));
    assert!(matches!(game_mode_step(true, false, &p), (false, TitleAction::Clear)));
    assert!(matches!(game_mode_step(false, false, &p), (false, TitleAction::Keep)));
    assert!(matches!(game_mode_step(false, true, &None), (true, TitleAction::Keep)));
}

#[test]
fn menu_entries() {
    assert_eq!(menu_action("show"), MenuAction::ShowWindow);
    assert_eq!(menu_action("quit"), MenuAction::Quit);
    assert_eq!(menu_action("refresh"), MenuAction::RefreshNow);
    assert_eq!(menu_action("settings"), MenuAction::OpenSettings);
    assert_eq!(menu_action("Show"), MenuAction::Ignore);
    assert_eq!(menu_action(""), MenuAction::Ignore);
}

#[test]
fn tray_clicks() {
    assert_eq!(click_action(true, true, true), ClickAction::HideWindow);
    assert_eq!(click_action(true, true, false), ClickAction::ShowAtClick);
    assert_eq!(click_action(true, false, false), ClickAction::Nothing);
    assert_eq!(click_action(false, true, true), ClickAction::Nothing);
}

#[test]
fn window_position_at_click() {
    assert_eq!(click_position(1000, 1050, false), (770, 462));
    assert_eq!(click_position(1000, 10, true), (770, 18));
    assert_eq!(click_position(100, 300, false), (8, 8));
}

#[test]
fn window_default_position() {
    assert_eq!(default_position(1920, 1080, 460, 580, 32, false), (1448, 440));
    assert_eq!(default_position(2560, 1600, 920, 1160, 64, true), (1628, 64));
}

#[test]
fn tooltip_text() {
    let p = profile_with_score();
    assert_eq!(tray_tooltip("Arthas", "Silvermoon", &p), "Arthas (Silvermoon) | Score: 45,210 W#1,234");
    let empty = ProfileData::for_request("eu", "Silvermoon", "Arthas");
    assert_eq!(tray_tooltip("Arthas", "Silvermoon", &empty), "Arthas (Silvermoon)");
}
