//! Profile data as the dashboard shows it, and its assembly from what the
//! web service answers.

use vstd::prelude::*;

use crate::catalog::{class_name, class_name_of, primary_professions, profession_table, race_name, race_name_of, ranking_keys, ranking_table, string_views};
use crate::numfmt::{format_integer, format_rank, formatted_rank, signed_decimal};
use crate::text::{capitalize, capitalized, lowercase, same_text, to_lowercase, to_uppercase, uppercase};

verus! {

/// Base address of the data API.
pub const API_BASE: &'static str = "https://api.dataforazeroth.com";

/// Base address of the web site, which serves the maximum-score table.
pub const SITE_BASE: &'static str = "https://www.dataforazeroth.com";

/// Base address of character portraits.
pub const RENDER_BASE: &'static str = "https://render.worldofwarcraft.com/";

/// One ranking line of the dashboard.
#[derive(Debug, Clone)]
pub struct RankInfo {
    pub category: String,
    pub value: String,
    pub percentage: String,
    pub world_rank: String,
    pub region_rank: String,
    pub region_label: String,
    pub realm_rank: String,
    pub realm_label: String,
}

/// Everything the dashboard shows of the tracked character.
#[derive(Debug, Clone)]
pub struct ProfileData {
    pub character: String,
    pub realm: String,
    pub region: String,
    pub completion_score: Option<RankInfo>,
    pub rankings: Vec<RankInfo>,
    pub error: String,
    pub updated_at: u64,
}

/// One character of the account overview.
#[derive(Debug, Clone)]
pub struct CharacterSummary {
    pub name: String,
    pub realm: String,
    pub region: String,
    pub class_name: String,
    pub race_name: String,
    pub level: u32,
    pub item_level: u32,
    pub guild: String,
    pub professions: Vec<String>,
    pub thumbnail: String,
}

/// The character block of the service's character answer; a field is
/// `None` where the answer lacks it.
#[derive(Debug, Clone)]
pub struct CharacterInfo {
    pub name: Option<String>,
    pub realm: Option<String>,
    pub updated: Option<u64>,
}

/// The world, region and realm ranks of one category; a field is `None`
/// where the service reports no rank.
#[derive(Debug, Clone, Copy)]
pub struct RankEntry {
    pub world: Option<i64>,
    pub region: Option<i64>,
    pub realm: Option<i64>,
}

/// The text of an optional string: the string, or nothing.
pub open spec fn text_or_empty(s: Option<String>) -> Seq<char> {
    match s {
        Some(t) => t@,
        None => Seq::empty(),
    }
}

/// The text of an optional rank: the formatted rank, or nothing.
pub open spec fn rank_text(r: Option<i64>) -> Seq<char> {
    match r {
        Some(raw) => formatted_rank(raw),
        None => Seq::empty(),
    }
}

/// What the dashboard shows of one category besides its ranks: the score
/// as text and its share of the maximum score (empty where unknown), with
/// the ranks the service reported for it.
#[derive(Debug, Clone)]
pub struct ScoreLine {
    pub value: String,
    pub percentage: String,
    pub rank: Option<RankEntry>,
}

/// The positions `i` with `from <= i < to` at which `s` holds a value, ascending.
pub open spec fn present_indices<T>(s: Seq<Option<T>>, from: int, to: int) -> Seq<int>
    decreases to - from,
{
    if to <= from {
        Seq::empty()
    } else {
        present_indices(s, from, to - 1) + (if s[to - 1] is Some {
            seq![to - 1]
        } else {
            Seq::<int>::empty()
        })
    }
}

proof fn lemma_present_indices_bounds<T>(s: Seq<Option<T>>, from: int, to: int)
    ensures
        forall|k: int| 0 <= k < present_indices(s, from, to).len() ==> from <= #[trigger] present_indices(s, from, to)[k] < to
            && s[present_indices(s, from, to)[k]] is Some,
    decreases to - from,
{
    if to > from {
        lemma_present_indices_bounds(s, from, to - 1);
    }
}

proof fn lemma_present_indices_increasing<T>(s: Seq<Option<T>>, from: int, to: int)
    ensures
        forall|a: int, b: int| 0 <= a < b < present_indices(s, from, to).len() ==> present_indices(s, from, to)[a] < present_indices(s, from, to)[b],
    decreases to - from,
{
    if to > from {
        lemma_present_indices_increasing(s, from, to - 1);
        lemma_present_indices_bounds(s, from, to - 1);
        let prev = present_indices(s, from, to - 1);
        let cur = present_indices(s, from, to);
        assert forall|a: int, b: int| 0 <= a < b < cur.len() implies cur[a] < cur[b] by {
            if b < prev.len() {
                assert(cur[a] == prev[a] && cur[b] == prev[b]);
            } else {
                assert(cur[a] == prev[a]);
                assert(cur[b] == to - 1);
            }
        }
    }
}

/// Law: the dashboard lists each scored category once, in catalogue order,
/// and the completion score (the first category) never among the
/// rankings: the positions `add_rankings` takes lines from are strictly
/// increasing, lie past the first category, and hold a score.
pub proof fn law_rankings_in_catalogue_order(lines: Seq<Option<ScoreLine>>)
    ensures
        forall|k: int| 0 <= k < present_indices(lines, 1, lines.len() as int).len() ==> {
            let i = #[trigger] present_indices(lines, 1, lines.len() as int)[k];
            &&& 1 <= i < lines.len()
            &&& lines[i] is Some
        },
        forall|a: int, b: int| 0 <= a < b < present_indices(lines, 1, lines.len() as int).len()
            ==> present_indices(lines, 1, lines.len() as int)[a] < present_indices(lines, 1, lines.len() as int)[b],
{
    lemma_present_indices_bounds(lines, 1, lines.len() as int);
    lemma_present_indices_increasing(lines, 1, lines.len() as int);
}

/// The query of the rankings request: for each category with a score, in
/// catalogue order, its API key and the score in whole numbers.
pub fn ranking_query(scores: &Vec<Option<i64>>) -> (query: Vec<(String, String)>)
    requires
        scores@.len() == ranking_table().len(),
    ensures
        query@.len() == present_indices(scores@, 0, scores@.len() as int).len(),
        forall|k: int| 0 <= k < query@.len() ==> {
            let i = present_indices(scores@, 0, scores@.len() as int)[k];
            &&& (#[trigger] query@[k]).0@ == ranking_table()[i].0@
            &&& query@[k].1@ == signed_decimal(scores@[i]->Some_0)
        },
{
    let keys = ranking_keys();
    let mut query: Vec<(String, String)> = Vec::new();
    let mut i: usize = 0;
    while i < scores.len()
        invariant
            keys@ == ranking_table(),
            scores@.len() == ranking_table().len(),
            i <= scores@.len(),
            query@.len() == present_indices(scores@, 0, i as int).len(),
            forall|k: int| 0 <= k < query@.len() ==> {
                let j = present_indices(scores@, 0, i as int)[k];
                &&& (#[trigger] query@[k]).0@ == ranking_table()[j].0@
                &&& query@[k].1@ == signed_decimal(scores@[j]->Some_0)
            },
        decreases scores.len() - i,
    {
        if let Some(n) = scores[i] {
            let key = keys[i].0.to_owned();
            query.push((key, format_integer(n)));
        }
        i = i + 1;
    }
    query
}

/// `info` is the dashboard line of category `i` with the given score line
/// and labels.
pub open spec fn describes(info: RankInfo, i: int, line: ScoreLine, region_label: Seq<char>, realm_label: Seq<char>) -> bool {
    &&& info.category@ == ranking_table()[i].1@
    &&& info.value@ == line.value@
    &&& info.percentage@ == line.percentage@
    &&& info.world_rank@ == (match line.rank {
        Some(r) => rank_text(r.world),
        None => Seq::empty(),
    })
    &&& info.region_rank@ == (match line.rank {
        Some(r) => rank_text(r.region),
        None => Seq::empty(),
    })
    &&& info.realm_rank@ == (match line.rank {
        Some(r) => rank_text(r.realm),
        None => Seq::empty(),
    })
    &&& info.region_label@ == region_label
    &&& info.realm_label@ == realm_label
}

fn optional_rank(r: Option<i64>) -> (text: String)
    ensures
        text@ == rank_text(r),
{
    match r {
        Some(raw) => format_rank(raw),
        None => String::new(),
    }
}

fn rank_info_for(category: &str, line: &ScoreLine, region_label: &String, realm_label: &String) -> (info: RankInfo)
    ensures
        info.category@ == category@,
        info.value@ == line.value@,
        info.percentage@ == line.percentage@,
        info.world_rank@ == (match line.rank {
            Some(r) => rank_text(r.world),
            None => Seq::empty(),
        }),
        info.region_rank@ == (match line.rank {
            Some(r) => rank_text(r.region),
            None => Seq::empty(),
        }),
        info.realm_rank@ == (match line.rank {
            Some(r) => rank_text(r.realm),
            None => Seq::empty(),
        }),
        info.region_label@ == region_label@,
        info.realm_label@ == realm_label@,
{
    let (world, region, realm) = match line.rank {
        Some(r) => (optional_rank(r.world), optional_rank(r.region), optional_rank(r.realm)),
        None => (String::new(), String::new(), String::new()),
    };
    RankInfo {
        category: category.to_owned(),
        value: line.value.clone(),
        percentage: line.percentage.clone(),
        world_rank: world,
        region_rank: region,
        region_label: region_label.clone(),
        realm_rank: realm,
        realm_label: realm_label.clone(),
    }
}

impl ProfileData {
    /// The state of a profile request before any answer arrived.
    pub open spec fn is_request_for(&self, region: Seq<char>, realm: Seq<char>, character: Seq<char>) -> bool {
        &&& self.character@ == character
        &&& self.realm@ == realm
        &&& self.region@ == uppercase(region)
        &&& self.completion_score is None
        &&& self.rankings@.len() == 0
        &&& self.error@.len() == 0
        &&& self.updated_at == 0
    }

    /// A profile for the given character with no data yet: the region is
    /// shown in uppercase, everything else is empty.
    pub fn for_request(region: &str, realm: &str, character: &str) -> (profile: ProfileData)
        ensures
            profile.is_request_for(region@, realm@, character@),
    {
        ProfileData {
            character: character.to_owned(),
            realm: realm.to_owned(),
            region: to_uppercase(region),
            completion_score: None,
            rankings: Vec::new(),
            error: String::new(),
            updated_at: 0,
        }
    }

    /// Takes over the name, realm and update time the service reports,
    /// keeping the requested values where it reports none.
    pub fn apply_character_info(&mut self, info: &CharacterInfo)
        ensures
            final(self).character@ == (match info.name {
                Some(n) => n@,
                None => old(self).character@,
            }),
            final(self).realm@ == (match info.realm {
                Some(r) => r@,
                None => old(self).realm@,
            }),
            final(self).updated_at == (match info.updated {
                Some(t) => t,
                None => old(self).updated_at,
            }),
            final(self).region == old(self).region,
            final(self).completion_score == old(self).completion_score,
            final(self).rankings == old(self).rankings,
            final(self).error == old(self).error,
    {
        if let Some(name) = &info.name {
            self.character = name.clone();
        }
        if let Some(r) = &info.realm {
            self.realm = r.clone();
        }
        if let Some(ts) = info.updated {
            self.updated_at = ts;
        }
    }
}

impl ProfileData {
    /// Adds the dashboard lines of every category that has a score, in
    /// catalogue order. The completion score (the first category) becomes
    /// the headline; the other categories are appended to the rankings.
    /// Region labels show `region` in uppercase, realm labels the
    /// profile's realm.
    pub fn add_rankings(&mut self, region: &str, lines: &Vec<Option<ScoreLine>>)
        requires
            lines@.len() == ranking_table().len(),
        ensures
            (match lines@[0] {
                Some(line) => final(self).completion_score matches Some(info)
                    && describes(info, 0, line, uppercase(region@), old(self).realm@),
                None => final(self).completion_score == old(self).completion_score,
            }),
            final(self).rankings@.len() == old(self).rankings@.len() + present_indices(lines@, 1, lines@.len() as int).len(),
            forall|k: int| 0 <= k < old(self).rankings@.len() ==> #[trigger] final(self).rankings@[k] == old(self).rankings@[k],
            forall|k: int| 0 <= k < present_indices(lines@, 1, lines@.len() as int).len() ==> {
                let i = present_indices(lines@, 1, lines@.len() as int)[k];
                describes(#[trigger] final(self).rankings@[old(self).rankings@.len() + k], i, lines@[i]->Some_0, uppercase(region@), old(self).realm@)
            },
            final(self).character == old(self).character,
            final(self).realm == old(self).realm,
            final(self).region == old(self).region,
            final(self).error == old(self).error,
            final(self).updated_at == old(self).updated_at,
    {
        let keys = ranking_keys();
        let region_label = to_uppercase(region);
        let realm_label = self.realm.clone();
        let ghost start = self.rankings@;
        if let Some(line) = &lines[0] {
            self.completion_score = Some(rank_info_for(keys[0].1, line, &region_label, &realm_label));
        }
        let mut i: usize = 1;
        assert(present_indices(lines@, 1, 1) =~= Seq::<int>::empty());
        while i < lines.len()
            invariant
                keys@ == ranking_table(),
                lines@.len() == ranking_table().len(),
                1 <= i <= lines@.len(),
                region_label@ == uppercase(region@),
                realm_label@ == old(self).realm@,
                self.realm == old(self).realm,
                self.character == old(self).character,
                self.region == old(self).region,
                self.error == old(self).error,
                self.updated_at == old(self).updated_at,
                start == old(self).rankings@,
                (match lines@[0] {
                    Some(line) => self.completion_score matches Some(info)
                        && describes(info, 0, line, uppercase(region@), old(self).realm@),
                    None => self.completion_score == old(self).completion_score,
                }),
                self.rankings@.len() == start.len() + present_indices(lines@, 1, i as int).len(),
                forall|k: int| 0 <= k < start.len() ==> #[trigger] self.rankings@[k] == start[k],
                forall|k: int| 0 <= k < present_indices(lines@, 1, i as int).len() ==> {
                    let j = present_indices(lines@, 1, i as int)[k];
                    describes(#[trigger] self.rankings@[start.len() + k], j, lines@[j]->Some_0, uppercase(region@), old(self).realm@)
                },
            decreases lines.len() - i,
        {
            if let Some(line) = &lines[i] {
                let info = rank_info_for(keys[i].1, line, &region_label, &realm_label);
                self.rankings.push(info);
            }
            i = i + 1;
        }
    }
}

/// One character as the batch summary service reports it; each field is
/// `None` where the answer lacks it or holds a value of another kind.
/// `profession_keys` lists the keys of the professions record.
#[derive(Debug, Clone)]
pub struct StubCharacter {
    pub name: Option<String>,
    pub realm: Option<String>,
    pub thumbnail: Option<String>,
    pub class_id: Option<u64>,
    pub race_id: Option<u64>,
    pub level: Option<u64>,
    pub average_item_level: Option<u64>,
    pub guild_name: Option<String>,
    pub profession_keys: Option<Vec<String>>,
}

/// The capitalized names of the professions among `keys`, in the order of
/// the profession list (its first `n` entries).
pub open spec fn listed_professions(keys: Seq<Seq<char>>, n: int) -> Seq<Seq<char>>
    decreases n,
{
    if n <= 0 {
        Seq::empty()
    } else {
        listed_professions(keys, n - 1) + (if keys.contains(profession_table()[n - 1]@) {
            seq![capitalized(profession_table()[n - 1]@)]
        } else {
            Seq::<Seq<char>>::empty()
        })
    }
}

/// The portrait address of a character: nothing when the service gave no
/// portrait path.
pub open spec fn thumbnail_address(region: Seq<char>, thumb: Seq<char>) -> Seq<char> {
    if thumb.len() == 0 {
        Seq::empty()
    } else {
        "https://render.worldofwarcraft.com/"@ + lowercase(region) + "/character/"@ + thumb
    }
}

/// `summary` is what the overview shows of `stub`, fetched for `region`.
pub open spec fn summarizes(summary: CharacterSummary, stub: StubCharacter, region: Seq<char>) -> bool {
    &&& summary.name@ == text_or_empty(stub.name)
    &&& summary.realm@ == text_or_empty(stub.realm)
    &&& summary.region@ == uppercase(region)
    &&& summary.class_name@ == class_name_of(stub.class_id.unwrap_or(0))@
    &&& summary.race_name@ == race_name_of(stub.race_id.unwrap_or(0))@
    &&& summary.level == stub.level.unwrap_or(0) as u32
    &&& summary.item_level == stub.average_item_level.unwrap_or(0) as u32
    &&& summary.guild@ == text_or_empty(stub.guild_name)
    &&& string_views(summary.professions@) == (match stub.profession_keys {
        Some(keys) => listed_professions(string_views(keys@), profession_table().len() as int),
        None => Seq::empty(),
    })
    &&& summary.thumbnail@ == thumbnail_address(region, text_or_empty(stub.thumbnail))
}

fn text_of(s: &Option<String>) -> (text: String)
    ensures
        text@ == text_or_empty(*s),
{
    match s {
        Some(t) => t.clone(),
        None => String::new(),
    }
}

fn holds_key(keys: &Vec<String>, key: &str) -> (res: bool)
    ensures
        res == string_views(keys@).contains(key@),
{
    let mut i: usize = 0;
    while i < keys.len()
        invariant
            i <= keys@.len(),
            forall|j: int| 0 <= j < i ==> keys@[j]@ != key@,
        decreases keys.len() - i,
    {
        if same_text(keys[i].as_str(), key) {
            assert(string_views(keys@)[i as int] == key@);
            return true;
        }
        i = i + 1;
    }
    assert forall|j: int| 0 <= j < string_views(keys@).len() implies string_views(keys@)[j] != key@ by {
        assert(string_views(keys@)[j] == keys@[j]@);
    }
    false
}

fn professions_among(keys: &Vec<String>) -> (names: Vec<String>)
    ensures
        string_views(names@) == listed_professions(string_views(keys@), profession_table().len() as int),
{
    let table = primary_professions();
    let mut names: Vec<String> = Vec::new();
    let mut i: usize = 0;
    while i < table.len()
        invariant
            table@ == profession_table(),
            i <= table@.len(),
            string_views(names@) == listed_professions(string_views(keys@), i as int),
        decreases table.len() - i,
    {
        let ghost before = names@;
        if holds_key(keys, table[i]) {
            names.push(capitalize(table[i]));
            assert(string_views(names@) =~= string_views(before).push(capitalized(profession_table()[i as int]@)));
        }
        i = i + 1;
    }
    names
}

fn portrait_address(region: &str, thumb: &String) -> (url: String)
    ensures
        url@ == thumbnail_address(region@, thumb@),
{
    if thumb.as_str().is_empty() {
        String::new()
    } else {
        let mut url = RENDER_BASE.to_owned();
        let lower = to_lowercase(region);
        url.append(lower.as_str());
        url.append("/character/");
        url.append(thumb.as_str());
        url
    }
}

/// What the overview shows of one character of the batch answer, fetched
/// for `region`.
pub fn summarize_character(stub: &StubCharacter, region: &str) -> (summary: CharacterSummary)
    ensures
        summarizes(summary, *stub, region@),
{
    let thumb = text_of(&stub.thumbnail);
    let professions = match &stub.profession_keys {
        Some(keys) => professions_among(keys),
        None => {
            let none: Vec<String> = Vec::new();
            assert(string_views(none@) =~= Seq::<Seq<char>>::empty());
            none
        },
    };
    let class_id = match stub.class_id { Some(c) => c, None => 0 };
    let race_id = match stub.race_id { Some(r) => r, None => 0 };
    let level = match stub.level { Some(l) => l, None => 0 };
    let item_level = match stub.average_item_level { Some(l) => l, None => 0 };
    CharacterSummary {
        name: text_of(&stub.name),
        realm: text_of(&stub.realm),
        region: to_uppercase(region),
        class_name: class_name(class_id).to_owned(),
        race_name: race_name(race_id).to_owned(),
        level: #[verifier::truncate] (level as u32),
        item_level: #[verifier::truncate] (item_level as u32),
        guild: text_of(&stub.guild_name),
        professions,
        thumbnail: portrait_address(region, &thumb),
    }
}

/// The region a batch entry was requested for: the region of the request
/// entry at the same position, or "EU" past the end of the request.
pub open spec fn batch_region(entries: Seq<(String, String, String)>, i: int) -> Seq<char> {
    if i < entries.len() { entries[i].0@ } else { "EU"@ }
}

/// The overview of a batch answer: one summary per answered character, in
/// answer order, skipping entries without a character block.
pub fn summarize_batch(stubs: &Vec<Option<StubCharacter>>, entries: &Vec<(String, String, String)>) -> (summaries: Vec<CharacterSummary>)
    ensures
        summaries@.len() == present_indices(stubs@, 0, stubs@.len() as int).len(),
        forall|k: int| 0 <= k < summaries@.len() ==> {
            let i = present_indices(stubs@, 0, stubs@.len() as int)[k];
            summarizes(#[trigger] summaries@[k], stubs@[i]->Some_0, batch_region(entries@, i))
        },
{
    let mut summaries: Vec<CharacterSummary> = Vec::new();
    let mut i: usize = 0;
    while i < stubs.len()
        invariant
            i <= stubs@.len(),
            summaries@.len() == present_indices(stubs@, 0, i as int).len(),
            forall|k: int| 0 <= k < summaries@.len() ==> {
                let j = present_indices(stubs@, 0, i as int)[k];
                summarizes(#[trigger] summaries@[k], stubs@[j]->Some_0, batch_region(entries@, j))
            },
        decreases stubs.len() - i,
    {
        if let Some(stub) = &stubs[i] {
            let summary = if i < entries.len() {
                summarize_character(stub, entries[i].0.as_str())
            } else {
                summarize_character(stub, "EU")
            };
            summaries.push(summary);
        }
        i = i + 1;
    }
    summaries
}

/// The last update time of a character, as the update watcher needs it:
/// the time the character block reports, or the error
/// "No updated timestamp".
pub fn updated_timestamp(info: &Option<CharacterInfo>) -> (res: Result<u64, String>)
    ensures
        match res {
            Ok(t) => info matches Some(i) && i.updated == Some(t),
            Err(msg) => !(info matches Some(i) && i.updated is Some) && msg@ == "No updated timestamp"@,
        },
{
    match info {
        Some(i) => match i.updated {
            Some(t) => Ok(t),
            None => Err("No updated timestamp".to_owned()),
        },
        None => Err("No updated timestamp".to_owned()),
    }
}

/// Address of a character's data.
pub fn character_url(region: &str, realm: &str, character: &str) -> (url: String)
    ensures
        url@ == "https://api.dataforazeroth.com"@ + "/characters/"@ + region@ + "/"@ + realm@ + "/"@ + character@,
{
    let mut url = API_BASE.to_owned();
    url.append("/characters/");
    url.append(region);
    url.append("/");
    url.append(realm);
    url.append("/");
    url.append(character);
    url
}

/// Address of the rankings of a realm.
pub fn rankings_url(region: &str, realm: &str) -> (url: String)
    ensures
        url@ == "https://api.dataforazeroth.com"@ + "/rankings/"@ + region@ + "/"@ + realm@,
{
    let mut url = API_BASE.to_owned();
    url.append("/rankings/");
    url.append(region);
    url.append("/");
    url.append(realm);
    url
}

/// Address that answers summaries of several characters at once.
pub fn stubs_url() -> (url: String)
    ensures
        url@ == "https://api.dataforazeroth.com"@ + "/stubs"@,
{
    let mut url = API_BASE.to_owned();
    url.append("/stubs");
    url
}

/// Address of the service's version record, which names the maximum-score table.
pub fn version_url() -> (url: String)
    ensures
        url@ == "https://api.dataforazeroth.com"@ + "/version"@,
{
    let mut url = API_BASE.to_owned();
    url.append("/version");
    url
}

/// Address of the maximum-score table at the path the version record names.
pub fn max_values_url(path: &str) -> (url: String)
    ensures
        url@ == "https://www.dataforazeroth.com"@ + path@,
{
    let mut url = SITE_BASE.to_owned();
    url.append(path);
    url
}

/// The headers every request carries, as (name, value) pairs.
pub open spec fn header_table() -> Seq<(&'static str, &'static str)> {
    seq![
        ("user-agent", "Mozilla/5.0 (Windows NT 10.0; Win64; x64) AppleWebKit/537.36 (KHTML, like Gecko) Chrome/120.0.0.0 Safari/537.36"),
        ("accept", "text/json; charset=iso-8859-1"),
        ("referer", "https://www.dataforazeroth.com/"),
        ("origin", "https://www.dataforazeroth.com"),
    ]
}

/// The headers every request carries, as (name, value) pairs.
pub fn request_headers() -> (headers: Vec<(&'static str, &'static str)>)
    ensures
        headers@ == header_table(),
{
    let mut headers: Vec<(&'static str, &'static str)> = Vec::new();
    headers.push(("user-agent", "Mozilla/5.0 (Windows NT 10.0; Win64; x64) AppleWebKit/537.36 (KHTML, like Gecko) Chrome/120.0.0.0 Safari/537.36"));
    headers.push(("accept", "text/json; charset=iso-8859-1"));
    headers.push(("referer", "https://www.dataforazeroth.com/"));
    headers.push(("origin", "https://www.dataforazeroth.com"));
    headers
}

} // verus!
