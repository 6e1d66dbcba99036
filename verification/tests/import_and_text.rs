use dfa_visualizer::config::CharacterEntry;
use dfa_visualizer::import::{key_of, login_url, other_characters, parse_character_list};
use dfa_visualizer::profile::ProfileData;
use dfa_visualizer::text::{capitalize, str_contains};

fn fields(e: &CharacterEntry) -> (&str, &str, &str) {
    (e.region.as_str(), e.realm.as_str(), e.name.as_str())
}

#[test]
fn parse_requires_marker() {
    assert!(parse_character_list("My Characters - DFA").is_none());
    assert!(parse_character_list("").is_none());
    assert!(parse_character_list("dfa_chars:EU/a/b").is_none());
}

#[test]
fn parse_lists_entries_in_order() {
    let list = parse_character_list("DFA_CHARS:EU/Silvermoon/Arthas|US/Stormrage/Thrall").unwrap();
    assert_eq!(list.len(), 2);
    assert_eq!(fields(&list[0]), ("EU", "Silvermoon", "Arthas"));
    assert_eq!(fields(&list[1]), ("US", "Stormrage", "Thrall"));
}

#[test]
fn parse_skips_malformed_pieces_and_keeps_extra_slashes_in_name() {
    let list = parse_character_list("DFA_CHARS:broken|EU/only-realm||EU/Realm/Name/With/Slashes").unwrap();
    assert_eq!(list.len(), 1);
    assert_eq!(fields(&list[0]), ("EU", "Realm", "Name/With/Slashes"));
}

#[test]
fn parse_marker_only_gives_empty_list() {
    let list = parse_character_list("DFA_CHARS:").unwrap();
    assert!(list.is_empty());
}

#[test]
fn parse_round_trip_of_written_list() {
    let chars = vec![("EU", "Argent Dawn", "Ælfwine"), ("US", "Area 52", "Zug"), ("TW", "Skywall", "")];
    let title = format!(
        "DFA_CHARS:{}",
        chars.iter().map(|(r, m, n)| format!("{r}/{m}/{n}")).collect::<Vec<_>>().join("|")
    );
    let list = parse_character_list(&title).unwrap();
    assert_eq!(list.len(), chars.len());
    for (e, c) in list.iter().zip(chars.iter()) {
        assert_eq!(fields(e), *c);
    }
}

#[test]
fn others_exclude_tracked_ignoring_case() {
    let entries = vec![
        CharacterEntry { region: "EU".to_string(), realm: "Silvermoon".to_string(), name: "Arthas".to_string() },
        CharacterEntry { region: "EU".to_string(), realm: "Draenor".to_string(), name: "Jaina".to_string() },
        CharacterEntry { region: "US".to_string(), realm: "Silvermoon".to_string(), name: "Arthas".to_string() },
    ];
    let others = other_characters(&entries, "eu", "SILVERMOON", "arthas");
    assert_eq!(others.len(), 2);
    assert_eq!(fields(&others[0]), ("EU", "Draenor", "Jaina"));
    assert_eq!(fields(&others[1]), ("US", "Silvermoon", "Arthas"));
    assert_eq!(other_characters(&entries, "kr", "x", "y").len(), 3);
}

#[test]
fn key_is_lowercase_joined() {
    assert_eq!(key_of("EU", "Silvermoon", "Arthas"), "eu/silvermoon/arthas");
}

#[test]
fn login_address_uses_lowercase_region() {
    assert_eq!(
        login_url("EU"),
        "https://www.dataforazeroth.com/redirect?to=blizzard&from=%2Fmycharacters&region=eu"
    );
}

#[test]
fn case_mapping_wrappers() {
    assert_eq!(ProfileData::for_request("eu", "", "").region, "EU");
    assert_eq!(key_of("EU", "SilverMoon", "ÀRTHAS"), "eu/silvermoon/àrthas");
    assert_eq!(capitalize("alchemy"), "Alchemy");
    assert_eq!(capitalize(""), "");
    assert_eq!(capitalize("ßtraße"), "SStraße");
}

#[test]
fn substring_search() {
    assert!(str_contains("world of warcraft", "warcraft"));
    assert!(str_contains("abc", ""));
    assert!(!str_contains("ab", "abc"));
    assert!(!str_contains("wxw", "wow"));
}
