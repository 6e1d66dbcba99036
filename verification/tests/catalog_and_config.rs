use dfa_visualizer::catalog::{
    all_categories, class_name, default_tracked, primary_professions, race_name, ranking_keys,
};
use dfa_visualizer::config::{AppConfig, CharacterEntry};

#[test]
fn class_names_by_id() {
    assert_eq!(class_name(1), "Warrior");
    assert_eq!(class_name(6), "Death Knight");
    assert_eq!(class_name(12), "Demon Hunter");
    assert_eq!(class_name(13), "Evoker");
    assert_eq!(class_name(0), "Unknown");
    assert_eq!(class_name(14), "Unknown");
}

#[test]
fn race_names_by_id() {
    assert_eq!(race_name(1), "Human");
    assert_eq!(race_name(10), "Blood Elf");
    assert_eq!(race_name(24), "Pandaren");
    assert_eq!(race_name(25), "Pandaren");
    assert_eq!(race_name(26), "Pandaren");
    assert_eq!(race_name(36), "Mag'har Orc");
    assert_eq!(race_name(52), "Dracthyr");
    assert_eq!(race_name(70), "Dracthyr");
    assert_eq!(race_name(84), "Earthen");
    assert_eq!(race_name(85), "Earthen");
    assert_eq!(race_name(12), "Unknown");
    assert_eq!(race_name(0), "Unknown");
}

#[test]
fn ranking_keys_start_with_completion_score() {
    let keys = ranking_keys();
    assert_eq!(keys.len(), 24);
    assert_eq!(keys[0], ("completion-score", "Completion Score"));
    assert_eq!(keys[4], ("account-mounts", "Mounts"));
    assert_eq!(keys[23], ("account-kills", "Honorable Kills"));
}

#[test]
fn categories_are_ranking_display_names() {
    let keys = ranking_keys();
    let cats = all_categories();
    assert_eq!(cats.len(), keys.len());
    for (cat, (_, name)) in cats.iter().zip(keys.iter()) {
        assert_eq!(cat, name);
    }
}

#[test]
fn default_tracked_are_known_categories() {
    let cats = all_categories();
    let defaults = default_tracked();
    assert_eq!(defaults.len(), 11);
    assert_eq!(defaults[0], "Achievement Points");
    assert_eq!(defaults[10], "Decor");
    for t in &defaults {
        assert!(cats.contains(t));
    }
}

#[test]
fn professions_list() {
    let p = primary_professions();
    assert_eq!(p.len(), 11);
    assert_eq!(p[0], "alchemy");
    assert_eq!(p[10], "tailoring");
}

#[test]
fn default_config_values() {
    let cfg = AppConfig::default();
    assert_eq!(cfg.region, "EU");
    assert_eq!(cfg.realm, "");
    assert_eq!(cfg.character, "");
    assert_eq!(cfg.tracked_rankings, default_tracked());
    assert_eq!(cfg.refresh_interval_minutes, 30);
    assert!(cfg.extra_characters.is_empty());
}

#[test]
fn default_config_is_not_configured() {
    let cfg = AppConfig::default();
    assert!(!cfg.is_configured());
    assert_eq!(cfg.require_configured(), Err("Profile not configured".to_string()));
}

#[test]
fn configured_needs_realm_and_character() {
    let mut cfg = AppConfig::default();
    cfg.realm = "Silvermoon".to_string();
    assert!(!cfg.is_configured());
    cfg.character = "Arthas".to_string();
    assert!(cfg.is_configured());
    assert_eq!(cfg.require_configured(), Ok(()));
    cfg.realm = String::new();
    assert!(!cfg.is_configured());
}

#[test]
fn character_list_puts_tracked_first() {
    let mut cfg = AppConfig::default();
    cfg.realm = "Silvermoon".to_string();
    cfg.character = "Arthas".to_string();
    cfg.extra_characters = vec![
        CharacterEntry { region: "EU".to_string(), realm: "Draenor".to_string(), name: "Jaina".to_string() },
        CharacterEntry { region: "US".to_string(), realm: "Stormrage".to_string(), name: "Thrall".to_string() },
    ];
    let list = cfg.character_list();
    assert_eq!(list.len(), 3);
    assert_eq!((list[0].region.as_str(), list[0].realm.as_str(), list[0].name.as_str()), ("EU", "Silvermoon", "Arthas"));
    assert_eq!((list[1].region.as_str(), list[1].realm.as_str(), list[1].name.as_str()), ("EU", "Draenor", "Jaina"));
    assert_eq!((list[2].region.as_str(), list[2].realm.as_str(), list[2].name.as_str()), ("US", "Stormrage", "Thrall"));
}
