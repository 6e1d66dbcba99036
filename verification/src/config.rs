//! The user's settings: which character to track and how.

use vstd::prelude::*;

use crate::catalog::{default_tracked, default_tracked_table, str_views, string_views};

verus! {

/// One character of the account, as the settings and the import list it.
#[derive(Debug, Clone)]
pub struct CharacterEntry {
    pub region: String,
    pub realm: String,
    pub name: String,
}

impl CharacterEntry {
    /// A copy of the entry with the same region, realm and name.
    pub fn duplicate(&self) -> (copy: CharacterEntry)
        ensures
            copy.region@ == self.region@,
            copy.realm@ == self.realm@,
            copy.name@ == self.name@,
    {
        CharacterEntry { region: self.region.clone(), realm: self.realm.clone(), name: self.name.clone() }
    }
}

/// The settings stored between runs.
#[derive(Debug, Clone)]
pub struct AppConfig {
    pub region: String,
    pub realm: String,
    pub character: String,
    pub tracked_rankings: Vec<String>,
    pub refresh_interval_minutes: u32,
    pub extra_characters: Vec<CharacterEntry>,
}

/// Minutes between background refreshes in a fresh configuration.
pub const DEFAULT_REFRESH_MINUTES: u32 = 30;

impl AppConfig {
    /// Whether the settings name a character: both realm and character are set.
    pub open spec fn configured(&self) -> bool {
        self.realm@.len() > 0 && self.character@.len() > 0
    }

    /// Whether the settings name a character: both realm and character are set.
    pub fn is_configured(&self) -> (res: bool)
        ensures
            res == self.configured(),
    {
        !self.realm.as_str().is_empty() && !self.character.as_str().is_empty()
    }

    /// The answer of a command that needs a configured profile.
    pub fn require_configured(&self) -> (res: Result<(), String>)
        ensures
            res is Ok <==> self.configured(),
            res matches Err(msg) ==> msg@ == "Profile not configured"@,
    {
        if self.is_configured() {
            Ok(())
        } else {
            Err("Profile not configured".to_owned())
        }
    }

    /// Whether a configuration is the one a first launch starts from.
    pub open spec fn is_fresh(&self) -> bool {
        &&& self.region@ == "EU"@
        &&& self.realm@.len() == 0
        &&& self.character@.len() == 0
        &&& string_views(self.tracked_rankings@) == str_views(default_tracked_table())
        &&& self.refresh_interval_minutes == DEFAULT_REFRESH_MINUTES
        &&& self.extra_characters@.len() == 0
    }

    /// The characters of the account overview: the tracked character
    /// first, then the imported ones in order.
    pub fn character_list(&self) -> (list: Vec<CharacterEntry>)
        ensures
            list@.len() == self.extra_characters@.len() + 1,
            list@[0].region@ == self.region@,
            list@[0].realm@ == self.realm@,
            list@[0].name@ == self.character@,
            forall|k: int| 0 <= k < self.extra_characters@.len() ==> {
                &&& (#[trigger] list@[k + 1]).region@ == self.extra_characters@[k].region@
                &&& list@[k + 1].realm@ == self.extra_characters@[k].realm@
                &&& list@[k + 1].name@ == self.extra_characters@[k].name@
            },
    {
        let mut list: Vec<CharacterEntry> = Vec::new();
        list.push(CharacterEntry {
            region: self.region.clone(),
            realm: self.realm.clone(),
            name: self.character.clone(),
        });
        let mut i: usize = 0;
        while i < self.extra_characters.len()
            invariant
                i <= self.extra_characters@.len(),
                list@.len() == i + 1,
                list@[0].region@ == self.region@,
                list@[0].realm@ == self.realm@,
                list@[0].name@ == self.character@,
                forall|k: int| 0 <= k < i ==> {
                    &&& (#[trigger] list@[k + 1]).region@ == self.extra_characters@[k].region@
                    &&& list@[k + 1].realm@ == self.extra_characters@[k].realm@
                    &&& list@[k + 1].name@ == self.extra_characters@[k].name@
                },
            decreases self.extra_characters.len() - i,
        {
            list.push(self.extra_characters[i].duplicate());
            i = i + 1;
        }
        list
    }
}

impl Default for AppConfig {
    /// Region EU, no realm or character, the default tracked categories,
    /// a refresh every thirty minutes.
    fn default() -> (cfg: Self)
        ensures
            cfg.is_fresh(),
    {
        AppConfig {
            region: "EU".to_owned(),
            realm: String::new(),
            character: String::new(),
            tracked_rankings: default_tracked(),
            refresh_interval_minutes: DEFAULT_REFRESH_MINUTES,
            extra_characters: Vec::new(),
        }
    }
}

/// Law: a fresh configuration names no character, so it is never
/// considered configured.
pub proof fn law_fresh_config_not_configured(cfg: AppConfig)
    requires
        cfg.is_fresh(),
    ensures
        !cfg.configured(),
{
}

} // verus!
