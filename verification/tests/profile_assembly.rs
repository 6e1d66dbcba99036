use dfa_visualizer::profile::{
    character_url, max_values_url, rankings_url, ranking_query, request_headers, stubs_url,
    summarize_batch, summarize_character, updated_timestamp, version_url, CharacterInfo,
    ProfileData, RankEntry, ScoreLine, StubCharacter,
};

fn no_lines() -> Vec<Option<ScoreLine>> {
    (0..24).map(|_| None).collect()
}

fn line(value: &str, pct: &str, rank: Option<RankEntry>) -> Option<ScoreLine> {
    Some(ScoreLine { value: value.to_string(), percentage: pct.to_string(), rank })
}

#[test]
fn request_profile_starts_empty_with_uppercase_region() {
    let p = ProfileData::for_request("eu", "Silvermoon", "Arthas");
    assert_eq!(p.region, "EU");
    assert_eq!(p.realm, "Silvermoon");
    assert_eq!(p.character, "Arthas");
    assert!(p.completion_score.is_none());
    assert!(p.rankings.is_empty());
    assert_eq!(p.error, "");
    assert_eq!(p.updated_at, 0);
}

#[test]
fn character_info_replaces_only_reported_fields() {
    let mut p = ProfileData::for_request("us", "stormrage", "thrall");
    p.apply_character_info(&CharacterInfo { name: Some("Thrall".to_string()), realm: None, updated: Some(1700000000) });
    assert_eq!(p.character, "Thrall");
    assert_eq!(p.realm, "stormrage");
    assert_eq!(p.updated_at, 1700000000);
    p.apply_character_info(&CharacterInfo { name: None, realm: Some("Stormrage".to_string()), updated: None });
    assert_eq!(p.character, "Thrall");
    assert_eq!(p.realm, "Stormrage");
    assert_eq!(p.updated_at, 1700000000);
}

#[test]
fn updated_timestamp_cases() {
    assert_eq!(updated_timestamp(&Some(CharacterInfo { name: None, realm: None, updated: Some(42) })), Ok(42));
    assert_eq!(
        updated_timestamp(&Some(CharacterInfo { name: None, realm: None, updated: None })),
        Err("No updated timestamp".to_string())
    );
    assert_eq!(updated_timestamp(&None), Err("No updated timestamp".to_string()));
}

#[test]
fn service_addresses() {
    assert_eq!(character_url("eu", "silvermoon", "arthas"), "https://api.dataforazeroth.com/characters/eu/silvermoon/arthas");
    assert_eq!(rankings_url("eu", "silvermoon"), "https://api.dataforazeroth.com/rankings/eu/silvermoon");
    assert_eq!(stubs_url(), "https://api.dataforazeroth.com/stubs");
    assert_eq!(version_url(), "https://api.dataforazeroth.com/version");
    assert_eq!(max_values_url("/data/max.json"), "https://www.dataforazeroth.com/data/max.json");
}

#[test]
fn headers_sent_with_requests() {
    let h = request_headers();
    assert_eq!(h.len(), 4);
    assert_eq!(h[1], ("accept", "text/json; charset=iso-8859-1"));
    assert_eq!(h[2], ("referer", "https://www.dataforazeroth.com/"));
    assert_eq!(h[3], ("origin", "https://www.dataforazeroth.com"));
    assert!(h[0].1.starts_with("Mozilla/5.0"));
}

#[test]
fn ranking_query_keeps_scored_categories_in_order() {
    let mut scores: Vec<Option<i64>> = vec![None; 24];
    scores[0] = Some(45210);
    scores[4] = Some(512);
    scores[23] = Some(-3);
    let q = ranking_query(&scores);
    assert_eq!(
        q,
        vec![
            ("completion-score".to_string(), "45210".to_string()),
            ("account-mounts".to_string(), "512".to_string()),
            ("account-kills".to_string(), "-3".to_string()),
        ]
    );
    assert!(ranking_query(&vec![None; 24]).is_empty());
}

#[test]
fn add_rankings_splits_completion_score() {
    let mut p = ProfileData::for_request("eu", "Silvermoon", "Arthas");
    let mut lines = no_lines();
    lines[0] = line("45,210", "88.4%", Some(RankEntry { world: Some(1234), region: Some(-500), realm: None }));
    lines[3] = line("31,000", "", None);
    lines[4] = line("512", "50.0%", Some(RankEntry { world: Some(9876543), region: None, realm: Some(7) }));
    p.add_rankings("eu", &lines);

    let cs = p.completion_score.as_ref().unwrap();
    assert_eq!(cs.category, "Completion Score");
    assert_eq!(cs.value, "45,210");
    assert_eq!(cs.percentage, "88.4%");
    assert_eq!(cs.world_rank, "1,234");
    assert_eq!(cs.region_rank, "500+");
    assert_eq!(cs.realm_rank, "");
    assert_eq!(cs.region_label, "EU");
    assert_eq!(cs.realm_label, "Silvermoon");

    assert_eq!(p.rankings.len(), 2);
    assert_eq!(p.rankings[0].category, "Achievement Points");
    assert_eq!(p.rankings[0].world_rank, "");
    assert_eq!(p.rankings[0].region_rank, "");
    assert_eq!(p.rankings[1].category, "Mounts");
    assert_eq!(p.rankings[1].world_rank, "9,876,543");
    assert_eq!(p.rankings[1].realm_rank, "7");
    assert_eq!(p.rankings[1].percentage, "50.0%");
}

#[test]
fn add_rankings_without_scores_changes_nothing() {
    let mut p = ProfileData::for_request("us", "Stormrage", "Thrall");
    p.add_rankings("us", &no_lines());
    assert!(p.completion_score.is_none());
    assert!(p.rankings.is_empty());
}

fn stub() -> StubCharacter {
    StubCharacter {
        name: Some("Jaina".to_string()),
        realm: Some("Draenor".to_string()),
        thumbnail: Some("draenor/12/345-avatar.jpg".to_string()),
        class_id: Some(8),
        race_id: Some(1),
        level: Some(80),
        average_item_level: Some(639),
        guild_name: Some("Kirin Tor".to_string()),
        profession_keys: Some(vec!["tailoring".to_string(), "cooking".to_string(), "enchanting".to_string()]),
    }
}

#[test]
fn summary_of_full_character() {
    let s = summarize_character(&stub(), "eu");
    assert_eq!(s.name, "Jaina");
    assert_eq!(s.realm, "Draenor");
    assert_eq!(s.region, "EU");
    assert_eq!(s.class_name, "Mage");
    assert_eq!(s.race_name, "Human");
    assert_eq!(s.level, 80);
    assert_eq!(s.item_level, 639);
    assert_eq!(s.guild, "Kirin Tor");
    assert_eq!(s.professions, vec!["Enchanting".to_string(), "Tailoring".to_string()]);
    assert_eq!(s.thumbnail, "https://render.worldofwarcraft.com/eu/character/draenor/12/345-avatar.jpg");
}

#[test]
fn summary_of_sparse_character() {
    let st = StubCharacter {
        name: None,
        realm: None,
        thumbnail: Some(String::new()),
        class_id: None,
        race_id: Some(99),
        level: Some(4294967296 + 5),
        average_item_level: None,
        guild_name: None,
        profession_keys: None,
    };
    let s = summarize_character(&st, "US");
    assert_eq!(s.name, "");
    assert_eq!(s.realm, "");
    assert_eq!(s.region, "US");
    assert_eq!(s.class_name, "Unknown");
    assert_eq!(s.race_name, "Unknown");
    assert_eq!(s.level, 5);
    assert_eq!(s.item_level, 0);
    assert_eq!(s.guild, "");
    assert!(s.professions.is_empty());
    assert_eq!(s.thumbnail, "");
}

#[test]
fn batch_skips_missing_and_defaults_region() {
    let entries = vec![
        ("us".to_string(), "Stormrage".to_string(), "Thrall".to_string()),
        ("kr".to_string(), "Azshara".to_string(), "Nobody".to_string()),
    ];
    let stubs = vec![Some(stub()), None, Some(stub())];
    let out = summarize_batch(&stubs, &entries);
    assert_eq!(out.len(), 2);
    assert_eq!(out[0].region, "US");
    assert_eq!(out[0].thumbnail, "https://render.worldofwarcraft.com/us/character/draenor/12/345-avatar.jpg");
    assert_eq!(out[1].region, "EU");
    assert_eq!(out[1].thumbnail, "https://render.worldofwarcraft.com/eu/character/draenor/12/345-avatar.jpg");
}
