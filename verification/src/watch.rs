//! Decisions of the background tasks: the refresh loop, the watch for a
//! finished character update on the service, and the game-mode title.

use vstd::prelude::*;

use crate::profile::{ProfileData, RankInfo};
use crate::text::{lowercase, occurs_in, str_contains, to_lowercase};

verus! {

/// How many times the update watch polls the service before giving up.
pub const WATCH_POLLS: u32 = 120;

/// Seconds between two polls of the update watch.
pub const WATCH_POLL_SECS: u64 = 30;

/// Seconds between two checks of the game-mode watcher.
pub const GAME_CHECK_SECS: u64 = 30;

/// Seconds the refresh loop waits before its first refresh.
pub const FIRST_REFRESH_DELAY_SECS: u64 = 3;

/// Seconds between two background refreshes for a refresh interval in minutes.
pub fn refresh_interval_secs(minutes: u32) -> (secs: u64)
    ensures
        secs == minutes * 60,
{
    (minutes as u64) * 60
}

/// The update time the watch compares against: that of the profile shown
/// now, or 0 when none is shown.
pub fn baseline_timestamp(profile: &Option<ProfileData>) -> (ts: u64)
    ensures
        ts == (match profile {
            Some(p) => p.updated_at,
            None => 0,
        }),
{
    match profile {
        Some(p) => p.updated_at,
        None => 0,
    }
}

/// What the update watch does after a poll.
#[derive(Debug, Clone, Copy, PartialEq, Eq)]
pub enum WatchAction {
    /// The character was updated: fetch the profile again and stop watching.
    Refresh,
    /// Nothing changed yet: wait and poll again.
    Wait,
    /// Every poll is spent: stop watching.
    GiveUp,
}

/// The state of a watch for a finished character update.
#[derive(Debug, Clone, Copy)]
pub struct UpdateWatch {
    pub baseline: u64,
    pub polls_left: u32,
}

/// A poll shows an update: the service reported a time that differs from a
/// known (non-zero) baseline.
pub open spec fn shows_update(baseline: u64, fetched: Option<u64>) -> bool {
    baseline != 0 && (fetched matches Some(t) && t != baseline)
}

impl UpdateWatch {
    /// A watch against `baseline` with every poll still to do.
    pub fn start(baseline: u64) -> (w: UpdateWatch)
        ensures
            w.baseline == baseline,
            w.polls_left == WATCH_POLLS,
    {
        UpdateWatch { baseline, polls_left: WATCH_POLLS }
    }

    /// Takes in the outcome of one poll (`None` when the poll failed) and
    /// says what to do next.
    pub fn observe(&mut self, fetched: Option<u64>) -> (action: WatchAction)
        requires
            old(self).polls_left > 0,
        ensures
            final(self).baseline == old(self).baseline,
            final(self).polls_left == old(self).polls_left - 1,
            action == (if shows_update(old(self).baseline, fetched) {
                WatchAction::Refresh
            } else if final(self).polls_left == 0 {
                WatchAction::GiveUp
            } else {
                WatchAction::Wait
            }),
    {
        self.polls_left = self.polls_left - 1;
        let updated = match fetched {
            Some(t) => self.baseline != 0 && t != self.baseline,
            None => false,
        };
        if updated {
            WatchAction::Refresh
        } else if self.polls_left == 0 {
            WatchAction::GiveUp
        } else {
            WatchAction::Wait
        }
    }
}

/// Law: a watch that started without a known update time (no profile was
/// shown, baseline 0) never refreshes, whatever the polls report; and a
/// poll that reports the baseline itself, or fails, never refreshes either.
pub proof fn law_watch_refresh_needs_change(baseline: u64, fetched: Option<u64>)
    ensures
        baseline == 0 ==> !shows_update(baseline, fetched),
        fetched == Some(baseline) ==> !shows_update(baseline, fetched),
        fetched is None ==> !shows_update(baseline, fetched),
{
}

/// A process name (in lowercase) that belongs to the game.
pub open spec fn is_game_name(lower: Seq<char>) -> bool {
    occurs_in("world of warcraft"@, lower) || occurs_in("wow"@, lower) || occurs_in("wow.exe"@, lower)
}

/// Law: a process name counts as the game exactly when its lowercase form
/// contains "world of warcraft" or "wow" (every name containing "wow.exe"
/// already contains "wow"); a name containing neither is not the game.
pub proof fn law_game_name_needs_title_or_wow(lower: Seq<char>)
    ensures
        is_game_name(lower) <==> (occurs_in("world of warcraft"@, lower) || occurs_in("wow"@, lower)),
{
    if occurs_in("wow.exe"@, lower) {
        reveal_strlit("wow.exe");
        reveal_strlit("wow");
        let i = choose|i: int| 0 <= i && i + "wow.exe"@.len() <= lower.len() && #[trigger] lower.subrange(i, i + "wow.exe"@.len()) == "wow.exe"@;
        assert(lower.subrange(i, i + "wow"@.len()) =~= "wow"@) by {
            assert forall|k: int| 0 <= k < 3 implies lower.subrange(i, i + 3)[k] == "wow"@[k] by {
                assert(lower.subrange(i, i + 7)[k] == "wow.exe"@[k]);
            }
        }
    }
}

/// Whether a process name belongs to the game, ignoring letter case.
pub fn is_game_process(name: &str) -> (res: bool)
    ensures
        res == is_game_name(lowercase(name@)),
{
    let lower = to_lowercase(name);
    str_contains(lower.as_str(), "world of warcraft") || str_contains(lower.as_str(), "wow")
        || str_contains(lower.as_str(), "wow.exe")
}

/// Whether any of the running processes belongs to the game.
pub fn any_game_process(names: &Vec<String>) -> (res: bool)
    ensures
        res == exists|k: int| 0 <= k < names@.len() && is_game_name(lowercase(#[trigger] names@[k]@)),
{
    let mut i: usize = 0;
    while i < names.len()
        invariant
            i <= names@.len(),
            forall|k: int| 0 <= k < i ==> !is_game_name(lowercase(#[trigger] names@[k]@)),
        decreases names.len() - i,
    {
        if is_game_process(names[i].as_str()) {
            return true;
        }
        i = i + 1;
    }
    false
}

/// The menu-bar title shown while the game runs: "VALUE (#WORLD_RANK)".
pub open spec fn game_title(cs: RankInfo) -> Seq<char> {
    cs.value@ + " (#"@ + cs.world_rank@ + ")"@
}

/// The menu-bar title for a completion score.
pub fn game_title_for(cs: &RankInfo) -> (title: String)
    ensures
        title@ == game_title(*cs),
{
    let mut title = cs.value.clone();
    title.append(" (#");
    title.append(cs.world_rank.as_str());
    title.append(")");
    title
}

/// What the game-mode watcher does to the menu-bar title.
#[derive(Debug, Clone)]
pub enum TitleAction {
    /// Leave the title as it is.
    Keep,
    /// Show this title.
    Show(String),
    /// Remove the title.
    Clear,
}

/// One check of the game-mode watcher: whether the game now runs, given
/// whether it ran at the last check and the profile shown. The title
/// changes only when the game starts or stops: it shows the completion
/// score while the game runs (when one is known) and is cleared when it
/// stops. Returns whether the game runs, for the next check.
pub fn game_mode_step(was_running: bool, running: bool, profile: &Option<ProfileData>) -> (res: (bool, TitleAction))
    ensures
        res.0 == running,
        running == was_running ==> res.1 is Keep,
        running != was_running && !running ==> res.1 is Clear,
        running != was_running && running ==> (match profile {
            Some(p) => match p.completion_score {
                Some(cs) => res.1 matches TitleAction::Show(t) && t@ == game_title(cs),
                None => res.1 is Keep,
            },
            None => res.1 is Keep,
        }),
{
    if running == was_running {
        return (running, TitleAction::Keep);
    }
    if !running {
        return (running, TitleAction::Clear);
    }
    match profile {
        Some(p) => match &p.completion_score {
            Some(cs) => (running, TitleAction::Show(game_title_for(cs))),
            None => (running, TitleAction::Keep),
        },
        None => (running, TitleAction::Keep),
    }
}

} // verus!
