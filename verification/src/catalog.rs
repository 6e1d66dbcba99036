//! The fixed catalogue of the service: ranking categories with their API
//! keys and display names, the settings' category lists, primary
//! professions, and the names of classes and races.

use vstd::prelude::*;

verus! {

/// The ranking categories in display order: (API key, display name).
pub open spec fn ranking_table() -> Seq<(&'static str, &'static str)> {
    seq![
        ("completion-score", "Completion Score"),
        ("gameplay-score", "Gameplay Score"),
        ("completion-count", "Completion Count"),
        ("achievement-points", "Achievement Points"),
        ("account-mounts", "Mounts"),
        ("pets-score", "Pet Score"),
        ("account-titles", "Titles"),
        ("account-reputations", "Reputations"),
        ("account-recipes", "Recipes"),
        ("account-quests", "Quests"),
        ("account-toys", "Toys"),
        ("account-appearance-sources", "Appearance Sources"),
        ("heirlooms-score", "Heirloom Score"),
        ("account-decor", "Decor"),
        ("achievements", "Achievements"),
        ("feats", "Feats of Strength"),
        ("legacy", "Legacy Achievements"),
        ("pets", "Pets"),
        ("account-appearances", "Appearances"),
        ("heirlooms", "Heirlooms"),
        ("alts", "Alts"),
        ("alts-score", "Alt Score"),
        ("honorlevel", "Honor Level"),
        ("account-kills", "Honorable Kills"),
    ]
}

/// The ranking categories in display order, as (API key, display name) pairs.
pub fn ranking_keys() -> (keys: Vec<(&'static str, &'static str)>)
    ensures
        keys@ == ranking_table(),
{
    let mut keys: Vec<(&'static str, &'static str)> = Vec::new();
    keys.push(("completion-score", "Completion Score"));
    keys.push(("gameplay-score", "Gameplay Score"));
    keys.push(("completion-count", "Completion Count"));
    keys.push(("achievement-points", "Achievement Points"));
    keys.push(("account-mounts", "Mounts"));
    keys.push(("pets-score", "Pet Score"));
    keys.push(("account-titles", "Titles"));
    keys.push(("account-reputations", "Reputations"));
    keys.push(("account-recipes", "Recipes"));
    keys.push(("account-quests", "Quests"));
    keys.push(("account-toys", "Toys"));
    keys.push(("account-appearance-sources", "Appearance Sources"));
    keys.push(("heirlooms-score", "Heirloom Score"));
    keys.push(("account-decor", "Decor"));
    keys.push(("achievements", "Achievements"));
    keys.push(("feats", "Feats of Strength"));
    keys.push(("legacy", "Legacy Achievements"));
    keys.push(("pets", "Pets"));
    keys.push(("account-appearances", "Appearances"));
    keys.push(("heirlooms", "Heirlooms"));
    keys.push(("alts", "Alts"));
    keys.push(("alts-score", "Alt Score"));
    keys.push(("honorlevel", "Honor Level"));
    keys.push(("account-kills", "Honorable Kills"));
    keys
}

/// Every category the settings screen offers, in display order.
pub open spec fn category_table() -> Seq<&'static str> {
    seq![
        "Completion Score",
        "Gameplay Score",
        "Completion Count",
        "Achievement Points",
        "Mounts",
        "Pet Score",
        "Titles",
        "Reputations",
        "Recipes",
        "Quests",
        "Toys",
        "Appearance Sources",
        "Heirloom Score",
        "Decor",
        "Achievements",
        "Feats of Strength",
        "Legacy Achievements",
        "Pets",
        "Appearances",
        "Heirlooms",
        "Alts",
        "Alt Score",
        "Honor Level",
        "Honorable Kills",
    ]
}

/// The display name the service's documentation gives each ranking key.
pub open spec fn display_name_of_key(key: &'static str) -> &'static str {
    if key == "completion-score" { "Completion Score" }
    else if key == "gameplay-score" { "Gameplay Score" }
    else if key == "completion-count" { "Completion Count" }
    else if key == "achievement-points" { "Achievement Points" }
    else if key == "account-mounts" { "Mounts" }
    else if key == "pets-score" { "Pet Score" }
    else if key == "account-titles" { "Titles" }
    else if key == "account-reputations" { "Reputations" }
    else if key == "account-recipes" { "Recipes" }
    else if key == "account-quests" { "Quests" }
    else if key == "account-toys" { "Toys" }
    else if key == "account-appearance-sources" { "Appearance Sources" }
    else if key == "heirlooms-score" { "Heirloom Score" }
    else if key == "account-decor" { "Decor" }
    else if key == "achievements" { "Achievements" }
    else if key == "feats" { "Feats of Strength" }
    else if key == "legacy" { "Legacy Achievements" }
    else if key == "pets" { "Pets" }
    else if key == "account-appearances" { "Appearances" }
    else if key == "heirlooms" { "Heirlooms" }
    else if key == "alts" { "Alts" }
    else if key == "alts-score" { "Alt Score" }
    else if key == "honorlevel" { "Honor Level" }
    else if key == "account-kills" { "Honorable Kills" }
    else { "" }
}

/// Law: every ranking category shows under the display name of its own API
/// key (account-quests as Quests, account-toys as Toys, and so on), so a
/// dashboard line labelled with a name shows the score and ranks of the key
/// that name belongs to; and no two categories share a key.
pub proof fn law_ranking_keys_carry_their_names()
    ensures
        forall|i: int| 0 <= i < ranking_table().len() ==> #[trigger] ranking_table()[i].1 == display_name_of_key(ranking_table()[i].0),
        forall|i: int, j: int| 0 <= i < j < ranking_table().len() ==> ranking_table()[i].0 != ranking_table()[j].0,
{
    let t = ranking_table();
    assert forall|i: int| 0 <= i < t.len() implies #[trigger] t[i].1 == display_name_of_key(t[i].0) by {
        if i == 0 { assert(t[0].1 == display_name_of_key(t[0].0)); }
        if i == 1 { assert(t[1].1 == display_name_of_key(t[1].0)); }
        if i == 2 { assert(t[2].1 == display_name_of_key(t[2].0)); }
        if i == 3 { assert(t[3].1 == display_name_of_key(t[3].0)); }
        if i == 4 { assert(t[4].1 == display_name_of_key(t[4].0)); }
        if i == 5 { assert(t[5].1 == display_name_of_key(t[5].0)); }
        if i == 6 { assert(t[6].1 == display_name_of_key(t[6].0)); }
        if i == 7 { assert(t[7].1 == display_name_of_key(t[7].0)); }
        if i == 8 { assert(t[8].1 == display_name_of_key(t[8].0)); }
        if i == 9 { assert(t[9].1 == display_name_of_key(t[9].0)); }
        if i == 10 { assert(t[10].1 == display_name_of_key(t[10].0)); }
        if i == 11 { assert(t[11].1 == display_name_of_key(t[11].0)); }
        if i == 12 { assert(t[12].1 == display_name_of_key(t[12].0)); }
        if i == 13 { assert(t[13].1 == display_name_of_key(t[13].0)); }
        if i == 14 { assert(t[14].1 == display_name_of_key(t[14].0)); }
        if i == 15 { assert(t[15].1 == display_name_of_key(t[15].0)); }
        if i == 16 { assert(t[16].1 == display_name_of_key(t[16].0)); }
        if i == 17 { assert(t[17].1 == display_name_of_key(t[17].0)); }
        if i == 18 { assert(t[18].1 == display_name_of_key(t[18].0)); }
        if i == 19 { assert(t[19].1 == display_name_of_key(t[19].0)); }
        if i == 20 { assert(t[20].1 == display_name_of_key(t[20].0)); }
        if i == 21 { assert(t[21].1 == display_name_of_key(t[21].0)); }
        if i == 22 { assert(t[22].1 == display_name_of_key(t[22].0)); }
        if i == 23 { assert(t[23].1 == display_name_of_key(t[23].0)); }
    }
    assert forall|i: int, j: int| 0 <= i < j < t.len() implies t[i].0 != t[j].0 by {
        if i == 0 { if j == 1 { assert(t[0].0 != t[1].0); } if j == 2 { assert(t[0].0 != t[2].0); } if j == 3 { assert(t[0].0 != t[3].0); } if j == 4 { assert(t[0].0 != t[4].0); } if j == 5 { assert(t[0].0 != t[5].0); } if j == 6 { assert(t[0].0 != t[6].0); } if j == 7 { assert(t[0].0 != t[7].0); } if j == 8 { assert(t[0].0 != t[8].0); } if j == 9 { assert(t[0].0 != t[9].0); } if j == 10 { assert(t[0].0 != t[10].0); } if j == 11 { assert(t[0].0 != t[11].0); } if j == 12 { assert(t[0].0 != t[12].0); } if j == 13 { assert(t[0].0 != t[13].0); } if j == 14 { assert(t[0].0 != t[14].0); } if j == 15 { assert(t[0].0 != t[15].0); } if j == 16 { assert(t[0].0 != t[16].0); } if j == 17 { assert(t[0].0 != t[17].0); } if j == 18 { assert(t[0].0 != t[18].0); } if j == 19 { assert(t[0].0 != t[19].0); } if j == 20 { assert(t[0].0 != t[20].0); } if j == 21 { assert(t[0].0 != t[21].0); } if j == 22 { assert(t[0].0 != t[22].0); } if j == 23 { assert(t[0].0 != t[23].0); } }
        if i == 1 { if j == 2 { assert(t[1].0 != t[2].0); } if j == 3 { assert(t[1].0 != t[3].0); } if j == 4 { assert(t[1].0 != t[4].0); } if j == 5 { assert(t[1].0 != t[5].0); } if j == 6 { assert(t[1].0 != t[6].0); } if j == 7 { assert(t[1].0 != t[7].0); } if j == 8 { assert(t[1].0 != t[8].0); } if j == 9 { assert(t[1].0 != t[9].0); } if j == 10 { assert(t[1].0 != t[10].0); } if j == 11 { assert(t[1].0 != t[11].0); } if j == 12 { assert(t[1].0 != t[12].0); } if j == 13 { assert(t[1].0 != t[13].0); } if j == 14 { assert(t[1].0 != t[14].0); } if j == 15 { assert(t[1].0 != t[15].0); } if j == 16 { assert(t[1].0 != t[16].0); } if j == 17 { assert(t[1].0 != t[17].0); } if j == 18 { assert(t[1].0 != t[18].0); } if j == 19 { assert(t[1].0 != t[19].0); } if j == 20 { assert(t[1].0 != t[20].0); } if j == 21 { assert(t[1].0 != t[21].0); } if j == 22 { assert(t[1].0 != t[22].0); } if j == 23 { assert(t[1].0 != t[23].0); } }
        if i == 2 { if j == 3 { assert(t[2].0 != t[3].0); } if j == 4 { assert(t[2].0 != t[4].0); } if j == 5 { assert(t[2].0 != t[5].0); } if j == 6 { assert(t[2].0 != t[6].0); } if j == 7 { assert(t[2].0 != t[7].0); } if j == 8 { assert(t[2].0 != t[8].0); } if j == 9 { assert(t[2].0 != t[9].0); } if j == 10 { assert(t[2].0 != t[10].0); } if j == 11 { assert(t[2].0 != t[11].0); } if j == 12 { assert(t[2].0 != t[12].0); } if j == 13 { assert(t[2].0 != t[13].0); } if j == 14 { assert(t[2].0 != t[14].0); } if j == 15 { assert(t[2].0 != t[15].0); } if j == 16 { assert(t[2].0 != t[16].0); } if j == 17 { assert(t[2].0 != t[17].0); } if j == 18 { assert(t[2].0 != t[18].0); } if j == 19 { assert(t[2].0 != t[19].0); } if j == 20 { assert(t[2].0 != t[20].0); } if j == 21 { assert(t[2].0 != t[21].0); } if j == 22 { assert(t[2].0 != t[22].0); } if j == 23 { assert(t[2].0 != t[23].0); } }
        if i == 3 { if j == 4 { assert(t[3].0 != t[4].0); } if j == 5 { assert(t[3].0 != t[5].0); } if j == 6 { assert(t[3].0 != t[6].0); } if j == 7 { assert(t[3].0 != t[7].0); } if j == 8 { assert(t[3].0 != t[8].0); } if j == 9 { assert(t[3].0 != t[9].0); } if j == 10 { assert(t[3].0 != t[10].0); } if j == 11 { assert(t[3].0 != t[11].0); } if j == 12 { assert(t[3].0 != t[12].0); } if j == 13 { assert(t[3].0 != t[13].0); } if j == 14 { assert(t[3].0 != t[14].0); } if j == 15 { assert(t[3].0 != t[15].0); } if j == 16 { assert(t[3].0 != t[16].0); } if j == 17 { assert(t[3].0 != t[17].0); } if j == 18 { assert(t[3].0 != t[18].0); } if j == 19 { assert(t[3].0 != t[19].0); } if j == 20 { assert(t[3].0 != t[20].0); } if j == 21 { assert(t[3].0 != t[21].0); } if j == 22 { assert(t[3].0 != t[22].0); } if j == 23 { assert(t[3].0 != t[23].0); } }
        if i == 4 { if j == 5 { assert(t[4].0 != t[5].0); } if j == 6 { assert(t[4].0 != t[6].0); } if j == 7 { assert(t[4].0 != t[7].0); } if j == 8 { assert(t[4].0 != t[8].0); } if j == 9 { assert(t[4].0 != t[9].0); } if j == 10 { assert(t[4].0 != t[10].0); } if j == 11 { assert(t[4].0 != t[11].0); } if j == 12 { assert(t[4].0 != t[12].0); } if j == 13 { assert(t[4].0 != t[13].0); } if j == 14 { assert(t[4].0 != t[14].0); } if j == 15 { assert(t[4].0 != t[15].0); } if j == 16 { assert(t[4].0 != t[16].0); } if j == 17 { assert(t[4].0 != t[17].0); } if j == 18 { assert(t[4].0 != t[18].0); } if j == 19 { assert(t[4].0 != t[19].0); } if j == 20 { assert(t[4].0 != t[20].0); } if j == 21 { assert(t[4].0 != t[21].0); } if j == 22 { assert(t[4].0 != t[22].0); } if j == 23 { assert(t[4].0 != t[23].0); } }
        if i == 5 { if j == 6 { assert(t[5].0 != t[6].0); } if j == 7 { assert(t[5].0 != t[7].0); } if j == 8 { assert(t[5].0 != t[8].0); } if j == 9 { assert(t[5].0 != t[9].0); } if j == 10 { assert(t[5].0 != t[10].0); } if j == 11 { assert(t[5].0 != t[11].0); } if j == 12 { assert(t[5].0 != t[12].0); } if j == 13 { assert(t[5].0 != t[13].0); } if j == 14 { assert(t[5].0 != t[14].0); } if j == 15 { assert(t[5].0 != t[15].0); } if j == 16 { assert(t[5].0 != t[16].0); } if j == 17 { assert(t[5].0 != t[17].0); } if j == 18 { assert(t[5].0 != t[18].0); } if j == 19 { assert(t[5].0 != t[19].0); } if j == 20 { assert(t[5].0 != t[20].0); } if j == 21 { assert(t[5].0 != t[21].0); } if j == 22 { assert(t[5].0 != t[22].0); } if j == 23 { assert(t[5].0 != t[23].0); } }
        if i == 6 { if j == 7 { assert(t[6].0 != t[7].0); } if j == 8 { assert(t[6].0 != t[8].0); } if j == 9 { assert(t[6].0 != t[9].0); } if j == 10 { assert(t[6].0 != t[10].0); } if j == 11 { assert(t[6].0 != t[11].0); } if j == 12 { assert(t[6].0 != t[12].0); } if j == 13 { assert(t[6].0 != t[13].0); } if j == 14 { assert(t[6].0 != t[14].0); } if j == 15 { assert(t[6].0 != t[15].0); } if j == 16 { assert(t[6].0 != t[16].0); } if j == 17 { assert(t[6].0 != t[17].0); } if j == 18 { assert(t[6].0 != t[18].0); } if j == 19 { assert(t[6].0 != t[19].0); } if j == 20 { assert(t[6].0 != t[20].0); } if j == 21 { assert(t[6].0 != t[21].0); } if j == 22 { assert(t[6].0 != t[22].0); } if j == 23 { assert(t[6].0 != t[23].0); } }
        if i == 7 { if j == 8 { assert(t[7].0 != t[8].0); } if j == 9 { assert(t[7].0 != t[9].0); } if j == 10 { assert(t[7].0 != t[10].0); } if j == 11 { assert(t[7].0 != t[11].0); } if j == 12 { assert(t[7].0 != t[12].0); } if j == 13 { assert(t[7].0 != t[13].0); } if j == 14 { assert(t[7].0 != t[14].0); } if j == 15 { assert(t[7].0 != t[15].0); } if j == 16 { assert(t[7].0 != t[16].0); } if j == 17 { assert(t[7].0 != t[17].0); } if j == 18 { assert(t[7].0 != t[18].0); } if j == 19 { assert(t[7].0 != t[19].0); } if j == 20 { assert(t[7].0 != t[20].0); } if j == 21 { assert(t[7].0 != t[21].0); } if j == 22 { assert(t[7].0 != t[22].0); } if j == 23 { assert(t[7].0 != t[23].0); } }
        if i == 8 { if j == 9 { assert(t[8].0 != t[9].0); } if j == 10 { assert(t[8].0 != t[10].0); } if j == 11 { assert(t[8].0 != t[11].0); } if j == 12 { assert(t[8].0 != t[12].0); } if j == 13 { assert(t[8].0 != t[13].0); } if j == 14 { assert(t[8].0 != t[14].0); } if j == 15 { assert(t[8].0 != t[15].0); } if j == 16 { assert(t[8].0 != t[16].0); } if j == 17 { assert(t[8].0 != t[17].0); } if j == 18 { assert(t[8].0 != t[18].0); } if j == 19 { assert(t[8].0 != t[19].0); } if j == 20 { assert(t[8].0 != t[20].0); } if j == 21 { assert(t[8].0 != t[21].0); } if j == 22 { assert(t[8].0 != t[22].0); } if j == 23 { assert(t[8].0 != t[23].0); } }
        if i == 9 { if j == 10 { assert(t[9].0 != t[10].0); } if j == 11 { assert(t[9].0 != t[11].0); } if j == 12 { assert(t[9].0 != t[12].0); } if j == 13 { assert(t[9].0 != t[13].0); } if j == 14 { assert(t[9].0 != t[14].0); } if j == 15 { assert(t[9].0 != t[15].0); } if j == 16 { assert(t[9].0 != t[16].0); } if j == 17 { assert(t[9].0 != t[17].0); } if j == 18 { assert(t[9].0 != t[18].0); } if j == 19 { assert(t[9].0 != t[19].0); } if j == 20 { assert(t[9].0 != t[20].0); } if j == 21 { assert(t[9].0 != t[21].0); } if j == 22 { assert(t[9].0 != t[22].0); } if j == 23 { assert(t[9].0 != t[23].0); } }
        if i == 10 { if j == 11 { assert(t[10].0 != t[11].0); } if j == 12 { assert(t[10].0 != t[12].0); } if j == 13 { assert(t[10].0 != t[13].0); } if j == 14 { assert(t[10].0 != t[14].0); } if j == 15 { assert(t[10].0 != t[15].0); } if j == 16 { assert(t[10].0 != t[16].0); } if j == 17 { assert(t[10].0 != t[17].0); } if j == 18 { assert(t[10].0 != t[18].0); } if j == 19 { assert(t[10].0 != t[19].0); } if j == 20 { assert(t[10].0 != t[20].0); } if j == 21 { assert(t[10].0 != t[21].0); } if j == 22 { assert(t[10].0 != t[22].0); } if j == 23 { assert(t[10].0 != t[23].0); } }
        if i == 11 { if j == 12 { assert(t[11].0 != t[12].0); } if j == 13 { assert(t[11].0 != t[13].0); } if j == 14 { assert(t[11].0 != t[14].0); } if j == 15 { assert(t[11].0 != t[15].0); } if j == 16 { assert(t[11].0 != t[16].0); } if j == 17 { assert(t[11].0 != t[17].0); } if j == 18 { assert(t[11].0 != t[18].0); } if j == 19 { assert(t[11].0 != t[19].0); } if j == 20 { assert(t[11].0 != t[20].0); } if j == 21 { assert(t[11].0 != t[21].0); } if j == 22 { assert(t[11].0 != t[22].0); } if j == 23 { assert(t[11].0 != t[23].0); } }
        if i == 12 { if j == 13 { assert(t[12].0 != t[13].0); } if j == 14 { assert(t[12].0 != t[14].0); } if j == 15 { assert(t[12].0 != t[15].0); } if j == 16 { assert(t[12].0 != t[16].0); } if j == 17 { assert(t[12].0 != t[17].0); } if j == 18 { assert(t[12].0 != t[18].0); } if j == 19 { assert(t[12].0 != t[19].0); } if j == 20 { assert(t[12].0 != t[20].0); } if j == 21 { assert(t[12].0 != t[21].0); } if j == 22 { assert(t[12].0 != t[22].0); } if j == 23 { assert(t[12].0 != t[23].0); } }
        if i == 13 { if j == 14 { assert(t[13].0 != t[14].0); } if j == 15 { assert(t[13].0 != t[15].0); } if j == 16 { assert(t[13].0 != t[16].0); } if j == 17 { assert(t[13].0 != t[17].0); } if j == 18 { assert(t[13].0 != t[18].0); } if j == 19 { assert(t[13].0 != t[19].0); } if j == 20 { assert(t[13].0 != t[20].0); } if j == 21 { assert(t[13].0 != t[21].0); } if j == 22 { assert(t[13].0 != t[22].0); } if j == 23 { assert(t[13].0 != t[23].0); } }
        if i == 14 { if j == 15 { assert(t[14].0 != t[15].0); } if j == 16 { assert(t[14].0 != t[16].0); } if j == 17 { assert(t[14].0 != t[17].0); } if j == 18 { assert(t[14].0 != t[18].0); } if j == 19 { assert(t[14].0 != t[19].0); } if j == 20 { assert(t[14].0 != t[20].0); } if j == 21 { assert(t[14].0 != t[21].0); } if j == 22 { assert(t[14].0 != t[22].0); } if j == 23 { assert(t[14].0 != t[23].0); } }
        if i == 15 { if j == 16 { assert(t[15].0 != t[16].0); } if j == 17 { assert(t[15].0 != t[17].0); } if j == 18 { assert(t[15].0 != t[18].0); } if j == 19 { assert(t[15].0 != t[19].0); } if j == 20 { assert(t[15].0 != t[20].0); } if j == 21 { assert(t[15].0 != t[21].0); } if j == 22 { assert(t[15].0 != t[22].0); } if j == 23 { assert(t[15].0 != t[23].0); } }
        if i == 16 { if j == 17 { assert(t[16].0 != t[17].0); } if j == 18 { assert(t[16].0 != t[18].0); } if j == 19 { assert(t[16].0 != t[19].0); } if j == 20 { assert(t[16].0 != t[20].0); } if j == 21 { assert(t[16].0 != t[21].0); } if j == 22 { assert(t[16].0 != t[22].0); } if j == 23 { assert(t[16].0 != t[23].0); } }
        if i == 17 { if j == 18 { assert(t[17].0 != t[18].0); } if j == 19 { assert(t[17].0 != t[19].0); } if j == 20 { assert(t[17].0 != t[20].0); } if j == 21 { assert(t[17].0 != t[21].0); } if j == 22 { assert(t[17].0 != t[22].0); } if j == 23 { assert(t[17].0 != t[23].0); } }
        if i == 18 { if j == 19 { assert(t[18].0 != t[19].0); } if j == 20 { assert(t[18].0 != t[20].0); } if j == 21 { assert(t[18].0 != t[21].0); } if j == 22 { assert(t[18].0 != t[22].0); } if j == 23 { assert(t[18].0 != t[23].0); } }
        if i == 19 { if j == 20 { assert(t[19].0 != t[20].0); } if j == 21 { assert(t[19].0 != t[21].0); } if j == 22 { assert(t[19].0 != t[22].0); } if j == 23 { assert(t[19].0 != t[23].0); } }
        if i == 20 { if j == 21 { assert(t[20].0 != t[21].0); } if j == 22 { assert(t[20].0 != t[22].0); } if j == 23 { assert(t[20].0 != t[23].0); } }
        if i == 21 { if j == 22 { assert(t[21].0 != t[22].0); } if j == 23 { assert(t[21].0 != t[23].0); } }
        if i == 22 { if j == 23 { assert(t[22].0 != t[23].0); } }
    }
}

/// The categories a fresh configuration tracks.
pub open spec fn default_tracked_table() -> Seq<&'static str> {
    seq![
        "Achievement Points",
        "Mounts",
        "Pet Score",
        "Titles",
        "Reputations",
        "Recipes",
        "Quests",
        "Toys",
        "Appearance Sources",
        "Heirloom Score",
        "Decor",
    ]
}

/// The professions listed on a character summary, in listing order.
pub open spec fn profession_table() -> Seq<&'static str> {
    seq![
        "alchemy",
        "blacksmithing",
        "enchanting",
        "engineering",
        "herbalism",
        "inscription",
        "jewelcrafting",
        "leatherworking",
        "mining",
        "skinning",
        "tailoring",
    ]
}

/// The display name of a class id.
pub open spec fn class_name_of(id: u64) -> &'static str {
    if id == 1 { "Warrior" }
    else if id == 2 { "Paladin" }
    else if id == 3 { "Hunter" }
    else if id == 4 { "Rogue" }
    else if id == 5 { "Priest" }
    else if id == 6 { "Death Knight" }
    else if id == 7 { "Shaman" }
    else if id == 8 { "Mage" }
    else if id == 9 { "Warlock" }
    else if id == 10 { "Monk" }
    else if id == 11 { "Druid" }
    else if id == 12 { "Demon Hunter" }
    else if id == 13 { "Evoker" }
    else { "Unknown" }
}

/// The display name of a class id; "Unknown" for ids the game does not use.
pub fn class_name(id: u64) -> (name: &'static str)
    ensures
        name == class_name_of(id),
{
    match id {
        1 => "Warrior",
        2 => "Paladin",
        3 => "Hunter",
        4 => "Rogue",
        5 => "Priest",
        6 => "Death Knight",
        7 => "Shaman",
        8 => "Mage",
        9 => "Warlock",
        10 => "Monk",
        11 => "Druid",
        12 => "Demon Hunter",
        13 => "Evoker",
        _ => "Unknown",
    }
}

/// The display name of a race id.
pub open spec fn race_name_of(id: u64) -> &'static str {
    if id == 1 { "Human" }
    else if id == 2 { "Orc" }
    else if id == 3 { "Dwarf" }
    else if id == 4 { "Night Elf" }
    else if id == 5 { "Undead" }
    else if id == 6 { "Tauren" }
    else if id == 7 { "Gnome" }
    else if id == 8 { "Troll" }
    else if id == 9 { "Goblin" }
    else if id == 10 { "Blood Elf" }
    else if id == 11 { "Draenei" }
    else if id == 22 { "Worgen" }
    else if id == 24 || id == 25 || id == 26 { "Pandaren" }
    else if id == 27 { "Nightborne" }
    else if id == 28 { "Highmountain Tauren" }
    else if id == 29 { "Void Elf" }
    else if id == 30 { "Lightforged Draenei" }
    else if id == 31 { "Zandalari Troll" }
    else if id == 32 { "Kul Tiran" }
    else if id == 34 { "Dark Iron Dwarf" }
    else if id == 35 { "Vulpera" }
    else if id == 36 { "Mag'har Orc" }
    else if id == 37 { "Mechagnome" }
    else if id == 52 || id == 70 { "Dracthyr" }
    else if id == 84 || id == 85 { "Earthen" }
    else { "Unknown" }
}

/// The display name of a race id (allied races and both factions' ids of a
/// race share a name); "Unknown" for any other id.
pub fn race_name(id: u64) -> (name: &'static str)
    ensures
        name == race_name_of(id),
{
    match id {
        1 => "Human",
        2 => "Orc",
        3 => "Dwarf",
        4 => "Night Elf",
        5 => "Undead",
        6 => "Tauren",
        7 => "Gnome",
        8 => "Troll",
        9 => "Goblin",
        10 => "Blood Elf",
        11 => "Draenei",
        22 => "Worgen",
        24 | 25 | 26 => "Pandaren",
        27 => "Nightborne",
        28 => "Highmountain Tauren",
        29 => "Void Elf",
        30 => "Lightforged Draenei",
        31 => "Zandalari Troll",
        32 => "Kul Tiran",
        34 => "Dark Iron Dwarf",
        35 => "Vulpera",
        36 => "Mag'har Orc",
        37 => "Mechagnome",
        52 | 70 => "Dracthyr",
        84 | 85 => "Earthen",
        _ => "Unknown",
    }
}

/// The playable classes in the order of their class ids, which start at 1.
pub open spec fn playable_classes() -> Seq<&'static str> {
    seq!["Warrior", "Paladin", "Hunter", "Rogue", "Priest", "Death Knight", "Shaman", "Mage", "Warlock", "Monk", "Druid", "Demon Hunter", "Evoker"]
}

/// Law: class id `k` (1 to 13) names the `k`-th playable class, Warrior,
/// Paladin, Hunter and so on to Evoker; every other id is "Unknown".
pub proof fn law_class_name_by_id(id: u64)
    ensures
        1 <= id <= playable_classes().len() ==> class_name_of(id) == playable_classes()[id - 1],
        !(1 <= id <= playable_classes().len()) ==> class_name_of(id) == "Unknown",
{
}

/// The playable races with their race ids (both factions' ids of a race,
/// and its allied forms, share the race's name).
pub open spec fn playable_races() -> Seq<(u64, &'static str)> {
    seq![(1, "Human"), (2, "Orc"), (3, "Dwarf"), (4, "Night Elf"), (5, "Undead"), (6, "Tauren"), (7, "Gnome"), (8, "Troll"), (9, "Goblin"), (10, "Blood Elf"), (11, "Draenei"), (22, "Worgen"), (24, "Pandaren"), (25, "Pandaren"), (26, "Pandaren"), (27, "Nightborne"), (28, "Highmountain Tauren"), (29, "Void Elf"), (30, "Lightforged Draenei"), (31, "Zandalari Troll"), (32, "Kul Tiran"), (34, "Dark Iron Dwarf"), (35, "Vulpera"), (36, "Mag'har Orc"), (37, "Mechagnome"), (52, "Dracthyr"), (70, "Dracthyr"), (84, "Earthen"), (85, "Earthen")]
}

/// Law: each race id of a playable race names that race; every other id is
/// "Unknown".
pub proof fn law_race_name_by_id(id: u64)
    ensures
        forall|k: int| 0 <= k < playable_races().len() && #[trigger] playable_races()[k].0 == id ==> race_name_of(id) == playable_races()[k].1,
        (forall|k: int| 0 <= k < playable_races().len() ==> #[trigger] playable_races()[k].0 != id) ==> race_name_of(id) == "Unknown",
{
    let races = playable_races();
    if !(exists|k: int| 0 <= k < races.len() && #[trigger] races[k].0 == id) {
        assert(races[0].0 != id);
        assert(races[1].0 != id);
        assert(races[2].0 != id);
        assert(races[3].0 != id);
        assert(races[4].0 != id);
        assert(races[5].0 != id);
        assert(races[6].0 != id);
        assert(races[7].0 != id);
        assert(races[8].0 != id);
        assert(races[9].0 != id);
        assert(races[10].0 != id);
        assert(races[11].0 != id);
        assert(races[12].0 != id);
        assert(races[13].0 != id);
        assert(races[14].0 != id);
        assert(races[15].0 != id);
        assert(races[16].0 != id);
        assert(races[17].0 != id);
        assert(races[18].0 != id);
        assert(races[19].0 != id);
        assert(races[20].0 != id);
        assert(races[21].0 != id);
        assert(races[22].0 != id);
        assert(races[23].0 != id);
        assert(races[24].0 != id);
        assert(races[25].0 != id);
        assert(races[26].0 != id);
        assert(races[27].0 != id);
        assert(races[28].0 != id);
    }
}

/// The views of a list of string slices.
pub open spec fn str_views(s: Seq<&'static str>) -> Seq<Seq<char>> {
    s.map_values(|x: &'static str| x@)
}

/// The views of a list of owned strings.
pub open spec fn string_views(s: Seq<String>) -> Seq<Seq<char>> {
    s.map_values(|x: String| x@)
}

/// Owned copies of a list of string slices, in the same order.
pub fn owned_strings(table: &Vec<&'static str>) -> (res: Vec<String>)
    ensures
        string_views(res@) == str_views(table@),
{
    let mut res: Vec<String> = Vec::new();
    let mut i: usize = 0;
    while i < table.len()
        invariant
            i <= table@.len(),
            res@.len() == i,
            forall|k: int| 0 <= k < i ==> #[trigger] res@[k]@ == table@[k]@,
        decreases table.len() - i,
    {
        res.push(table[i].to_owned());
        i = i + 1;
    }
    assert(string_views(res@) =~= str_views(table@));
    res
}

fn category_list() -> (list: Vec<&'static str>)
    ensures
        list@ == category_table(),
{
    let mut list: Vec<&'static str> = Vec::new();
    list.push("Completion Score");
    list.push("Gameplay Score");
    list.push("Completion Count");
    list.push("Achievement Points");
    list.push("Mounts");
    list.push("Pet Score");
    list.push("Titles");
    list.push("Reputations");
    list.push("Recipes");
    list.push("Quests");
    list.push("Toys");
    list.push("Appearance Sources");
    list.push("Heirloom Score");
    list.push("Decor");
    list.push("Achievements");
    list.push("Feats of Strength");
    list.push("Legacy Achievements");
    list.push("Pets");
    list.push("Appearances");
    list.push("Heirlooms");
    list.push("Alts");
    list.push("Alt Score");
    list.push("Honor Level");
    list.push("Honorable Kills");
    list
}

/// Every category the settings screen offers, in display order.
pub fn all_categories() -> (res: Vec<String>)
    ensures
        string_views(res@) == str_views(category_table()),
{
    owned_strings(&category_list())
}

fn default_tracked_list() -> (list: Vec<&'static str>)
    ensures
        list@ == default_tracked_table(),
{
    let mut list: Vec<&'static str> = Vec::new();
    list.push("Achievement Points");
    list.push("Mounts");
    list.push("Pet Score");
    list.push("Titles");
    list.push("Reputations");
    list.push("Recipes");
    list.push("Quests");
    list.push("Toys");
    list.push("Appearance Sources");
    list.push("Heirloom Score");
    list.push("Decor");
    list
}

/// The categories a fresh configuration tracks.
pub fn default_tracked() -> (res: Vec<String>)
    ensures
        string_views(res@) == str_views(default_tracked_table()),
{
    owned_strings(&default_tracked_list())
}

/// The professions listed on a character summary, in listing order.
pub fn primary_professions() -> (list: Vec<&'static str>)
    ensures
        list@ == profession_table(),
{
    let mut list: Vec<&'static str> = Vec::new();
    list.push("alchemy");
    list.push("blacksmithing");
    list.push("enchanting");
    list.push("engineering");
    list.push("herbalism");
    list.push("inscription");
    list.push("jewelcrafting");
    list.push("leatherworking");
    list.push("mining");
    list.push("skinning");
    list.push("tailoring");
    list
}

/// Law: the settings' category list names exactly the ranking categories,
/// in the same order.
pub proof fn law_categories_are_ranking_names()
    ensures
        category_table().len() == ranking_table().len(),
        forall|i: int| 0 <= i < ranking_table().len() ==> #[trigger] category_table()[i] == ranking_table()[i].1,
{
    assert(category_table() =~= ranking_table().map_values(|p: (&'static str, &'static str)| p.1));
}

/// Law: every category tracked by default is one the settings offer; they
/// are the eleven consecutive categories from Achievement Points to Decor,
/// in catalogue order, so none is tracked twice.
pub proof fn law_default_tracked_are_categories()
    ensures
        forall|i: int| 0 <= i < default_tracked_table().len() ==> category_table().contains(#[trigger] default_tracked_table()[i]),
        default_tracked_table() == category_table().subrange(3, 14),
{
    assert(default_tracked_table() =~= category_table().subrange(3, 14));
    assert forall|i: int| 0 <= i < default_tracked_table().len() implies category_table().contains(#[trigger] default_tracked_table()[i]) by {
        assert(default_tracked_table()[i] == category_table()[i + 3]);
    }
}

} // verus!
