use vstd::prelude::*;
use vstd::string::StringExecFns;
use crate::game::{calculate_difficulty_level, difficulty_level};
use crate::save::SaveData;
use crate::text::{equals_exactly, owned};

verus! {

/// Achievements the player can unlock.
#[derive(PartialEq, Eq, Structural, Clone, Copy, Debug)]
pub enum AchievementId {
    /// First collision with an obstacle.
    FirstBlood,
    /// Survive for one minute.
    Survivor,
    /// Reach difficulty level 5.
    SpeedDemon,
    /// Collect 10 power-ups.
    Collector,
    /// Score 1000 points.
    HighScorer,
    /// Score 5000 points.
    Master,
    /// Score 10000 points.
    Legend,
    /// Finish a game.
    GameOver,
}

/// Display name of an achievement.
pub open spec fn achievement_name(a: AchievementId) -> Seq<char> {
    match a {
        AchievementId::FirstBlood => "First Blood"@,
        AchievementId::Survivor => "Survivor"@,
        AchievementId::SpeedDemon => "Speed Demon"@,
        AchievementId::Collector => "Collector"@,
        AchievementId::HighScorer => "High Scorer"@,
        AchievementId::Master => "Master"@,
        AchievementId::Legend => "Legend"@,
        AchievementId::GameOver => "Game Over"@,
    }
}

/// Description of an achievement.
pub open spec fn achievement_description(a: AchievementId) -> Seq<char> {
    match a {
        AchievementId::FirstBlood => "First collision with an obstacle"@,
        AchievementId::Survivor => "Survive for 1 minute"@,
        AchievementId::SpeedDemon => "Reach difficulty level 5"@,
        AchievementId::Collector => "Collect 10 power-ups"@,
        AchievementId::HighScorer => "Score 1000 points"@,
        AchievementId::Master => "Score 5000 points"@,
        AchievementId::Legend => "Score 10000 points"@,
        AchievementId::GameOver => "Complete a game"@,
    }
}

/// Name under which an achievement is saved.
pub open spec fn achievement_key(a: AchievementId) -> Seq<char> {
    match a {
        AchievementId::FirstBlood => "FirstBlood"@,
        AchievementId::Survivor => "Survivor"@,
        AchievementId::SpeedDemon => "SpeedDemon"@,
        AchievementId::Collector => "Collector"@,
        AchievementId::HighScorer => "HighScorer"@,
        AchievementId::Master => "Master"@,
        AchievementId::Legend => "Legend"@,
        AchievementId::GameOver => "GameOver"@,
    }
}

/// Achievement saved under a name, if the name is one of the eight.
pub open spec fn parse_achievement(s: Seq<char>) -> Option<AchievementId> {
    if s == "FirstBlood"@ { Some(AchievementId::FirstBlood) }
    else if s == "Survivor"@ { Some(AchievementId::Survivor) }
    else if s == "SpeedDemon"@ { Some(AchievementId::SpeedDemon) }
    else if s == "Collector"@ { Some(AchievementId::Collector) }
    else if s == "HighScorer"@ { Some(AchievementId::HighScorer) }
    else if s == "Master"@ { Some(AchievementId::Master) }
    else if s == "Legend"@ { Some(AchievementId::Legend) }
    else if s == "GameOver"@ { Some(AchievementId::GameOver) }
    else { None }
}

impl AchievementId {
    /// Display name.
    pub fn name(&self) -> (name: &'static str)
        ensures
            name@ == achievement_name(*self),
    {
        match self {
            AchievementId::FirstBlood => "First Blood",
            AchievementId::Survivor => "Survivor",
            AchievementId::SpeedDemon => "Speed Demon",
            AchievementId::Collector => "Collector",
            AchievementId::HighScorer => "High Scorer",
            AchievementId::Master => "Master",
            AchievementId::Legend => "Legend",
            AchievementId::GameOver => "Game Over",
        }
    }

    /// Description.
    pub fn description(&self) -> (description: &'static str)
        ensures
            description@ == achievement_description(*self),
    {
        match self {
            AchievementId::FirstBlood => "First collision with an obstacle",
            AchievementId::Survivor => "Survive for 1 minute",
            AchievementId::SpeedDemon => "Reach difficulty level 5",
            AchievementId::Collector => "Collect 10 power-ups",
            AchievementId::HighScorer => "Score 1000 points",
            AchievementId::Master => "Score 5000 points",
            AchievementId::Legend => "Score 10000 points",
            AchievementId::GameOver => "Complete a game",
        }
    }

    /// Reads a saved name; the match is exact.
    pub fn from_str(s: &str) -> (a: Option<Self>)
        ensures
            a == parse_achievement(s@),
    {
        if equals_exactly(s, "FirstBlood") {
            Some(AchievementId::FirstBlood)
        } else if equals_exactly(s, "Survivor") {
            Some(AchievementId::Survivor)
        } else if equals_exactly(s, "SpeedDemon") {
            Some(AchievementId::SpeedDemon)
        } else if equals_exactly(s, "Collector") {
            Some(AchievementId::Collector)
        } else if equals_exactly(s, "HighScorer") {
            Some(AchievementId::HighScorer)
        } else if equals_exactly(s, "Master") {
            Some(AchievementId::Master)
        } else if equals_exactly(s, "Legend") {
            Some(AchievementId::Legend)
        } else if equals_exactly(s, "GameOver") {
            Some(AchievementId::GameOver)
        } else {
            None
        }
    }

    /// Name under which the achievement is saved.
    pub fn to_string(&self) -> (s: String)
        ensures
            s@ == achievement_key(*self),
    {
        match self {
            AchievementId::FirstBlood => owned("FirstBlood"),
            AchievementId::Survivor => owned("Survivor"),
            AchievementId::SpeedDemon => owned("SpeedDemon"),
            AchievementId::Collector => owned("Collector"),
            AchievementId::HighScorer => owned("HighScorer"),
            AchievementId::Master => owned("Master"),
            AchievementId::Legend => owned("Legend"),
            AchievementId::GameOver => owned("GameOver"),
        }
    }
}

/// A saved achievement reads back as itself.
pub proof fn lemma_achievement_key_round_trip(a: AchievementId)
    ensures
        parse_achievement(achievement_key(a)) == Some(a),
{
    reveal_strlit("FirstBlood");
    reveal_strlit("Survivor");
    reveal_strlit("SpeedDemon");
    reveal_strlit("Collector");
    reveal_strlit("HighScorer");
    reveal_strlit("Master");
    reveal_strlit("Legend");
    reveal_strlit("GameOver");
    assert("FirstBlood"@[0] != "Survivor"@[0]);
    assert("FirstBlood"@[0] != "SpeedDemon"@[0]);
    assert("FirstBlood"@[0] != "Collector"@[0]);
    assert("FirstBlood"@[0] != "HighScorer"@[0]);
    assert("FirstBlood"@[0] != "Master"@[0]);
    assert("FirstBlood"@[0] != "Legend"@[0]);
    assert("FirstBlood"@[0] != "GameOver"@[0]);
    assert("Survivor"@[1] != "SpeedDemon"@[1]);
    assert("Survivor"@[0] != "Collector"@[0]);
    assert("Survivor"@[0] != "HighScorer"@[0]);
    assert("Survivor"@[0] != "Master"@[0]);
    assert("Survivor"@[0] != "Legend"@[0]);
    assert("Survivor"@[0] != "GameOver"@[0]);
    assert("SpeedDemon"@[0] != "Collector"@[0]);
    assert("SpeedDemon"@[0] != "HighScorer"@[0]);
    assert("SpeedDemon"@[0] != "Master"@[0]);
    assert("SpeedDemon"@[0] != "Legend"@[0]);
    assert("SpeedDemon"@[0] != "GameOver"@[0]);
    assert("Collector"@[0] != "HighScorer"@[0]);
    assert("Collector"@[0] != "Master"@[0]);
    assert("Collector"@[0] != "Legend"@[0]);
    assert("Collector"@[0] != "GameOver"@[0]);
    assert("HighScorer"@[0] != "Master"@[0]);
    assert("HighScorer"@[0] != "Legend"@[0]);
    assert("HighScorer"@[0] != "GameOver"@[0]);
    assert("Master"@[0] != "Legend"@[0]);
    assert("Master"@[0] != "GameOver"@[0]);
    assert("Legend"@[0] != "GameOver"@[0]);
}

/// Every achievement, in display order.
pub open spec fn achievement_order() -> Seq<AchievementId> {
    seq![
        AchievementId::FirstBlood,
        AchievementId::Survivor,
        AchievementId::SpeedDemon,
        AchievementId::Collector,
        AchievementId::HighScorer,
        AchievementId::Master,
        AchievementId::Legend,
        AchievementId::GameOver,
    ]
}

/// Every achievement, in display order.
pub fn all_achievements() -> (all: [AchievementId; 8])
    ensures
        all@ == achievement_order(),
{
    let all = [
        AchievementId::FirstBlood,
        AchievementId::Survivor,
        AchievementId::SpeedDemon,
        AchievementId::Collector,
        AchievementId::HighScorer,
        AchievementId::Master,
        AchievementId::Legend,
        AchievementId::GameOver,
    ];
    assert(all@ =~= achievement_order());
    all
}

/// Achievements unlocked during this run.
pub struct AchievementTracker {
    /// Unlocked achievements in unlocking order; none appears twice.
    pub unlocked: Vec<AchievementId>,
    /// Power-ups picked up.
    pub powerups_collected: u32,
    /// The latest achievement unlocked.
    pub new_unlock: Option<AchievementId>,
}

/// A tracker lists each unlocked achievement once.
pub open spec fn tracker_wf(t: AchievementTracker) -> bool {
    t.unlocked@.no_duplicates()
}

impl Default for AchievementTracker {
    fn default() -> (t: Self)
        ensures
            t.unlocked@.len() == 0,
            t.powerups_collected == 0,
            t.new_unlock.is_none(),
            tracker_wf(t),
    {
        AchievementTracker { unlocked: Vec::new(), powerups_collected: 0, new_unlock: None }
    }
}

/// The texts of a list of strings.
pub open spec fn texts(v: Seq<String>) -> Seq<Seq<char>> {
    v.map_values(|s: String| s@)
}

/// Unlocked achievements and saved names after checking one achievement:
/// if its condition holds and it is not unlocked yet, it is added to both.
pub open spec fn unlock_step(
    unlocked: Seq<AchievementId>,
    saved: Seq<Seq<char>>,
    a: AchievementId,
    condition: bool,
) -> (Seq<AchievementId>, Seq<Seq<char>>) {
    if condition && !unlocked.contains(a) {
        (unlocked.push(a), saved.push(achievement_key(a)))
    } else {
        (unlocked, saved)
    }
}

/// Checking an achievement a second time with the same outcome changes
/// nothing more; checking keeps the list free of repeats and only ever adds
/// to it.
pub proof fn lemma_unlock_step(unlocked: Seq<AchievementId>, saved: Seq<Seq<char>>, a: AchievementId, condition: bool)
    ensures
        ({
            let (u1, s1) = unlock_step(unlocked, saved, a, condition);
            &&& unlock_step(u1, s1, a, condition) == (u1, s1)
            &&& unlocked.no_duplicates() ==> u1.no_duplicates()
            &&& u1.len() >= unlocked.len()
            &&& u1.subrange(0, unlocked.len() as int) == unlocked
            &&& (u1.contains(a) <==> unlocked.contains(a) || condition)
        }),
{
    let (u1, s1) = unlock_step(unlocked, saved, a, condition);
    if condition && !unlocked.contains(a) {
        assert(u1[u1.len() - 1] == a);
        assert(u1.contains(a));
        assert(u1.subrange(0, unlocked.len() as int) =~= unlocked);
    } else {
        assert(u1.subrange(0, unlocked.len() as int) =~= unlocked);
    }
}

fn is_unlocked(unlocked: &Vec<AchievementId>, a: AchievementId) -> (found: bool)
    ensures
        found == unlocked@.contains(a),
{
    let mut i: usize = 0;
    while i < unlocked.len()
        invariant
            i <= unlocked@.len(),
            forall|j: int| 0 <= j < i ==> unlocked@[j] != a,
        decreases unlocked@.len() - i,
    {
        if unlocked[i] == a {
            return true;
        }
        i = i + 1;
    }
    false
}

/// Unlocks `achievement` if `condition` holds and it is not unlocked yet:
/// it joins the tracker, becomes the latest unlock, and its name is added
/// to the save data. Returns whether it was unlocked now, in which case the
/// save data is to be written out.
pub fn check_and_unlock(
    achievement: AchievementId,
    condition: bool,
    tracker: &mut AchievementTracker,
    save_data: &mut SaveData,
) -> (unlocked_now: bool)
    ensures
        unlocked_now == (condition && !old(tracker).unlocked@.contains(achievement)),
        (final(tracker).unlocked@, texts(final(save_data).achievements@))
            == unlock_step(old(tracker).unlocked@, texts(old(save_data).achievements@), achievement, condition),
        final(tracker).new_unlock == (if unlocked_now { Some(achievement) } else { old(tracker).new_unlock }),
        final(tracker).powerups_collected == old(tracker).powerups_collected,
        final(save_data).high_score == old(save_data).high_score,
        final(save_data).stats == old(save_data).stats,
        final(save_data).settings == old(save_data).settings,
        tracker_wf(*old(tracker)) ==> tracker_wf(*final(tracker)),
{
    if condition && !is_unlocked(&tracker.unlocked, achievement) {
        tracker.unlocked.push(achievement);
        tracker.new_unlock = Some(achievement);
        let key = achievement.to_string();
        let ghost old_texts = texts(save_data.achievements@);
        save_data.achievements.push(key);
        proof {
            assert(texts(save_data.achievements@) =~= old_texts.push(achievement_key(achievement)));
            lemma_unlock_step(old(tracker).unlocked@, old_texts, achievement, condition);
        }
        true
    } else {
        false
    }
}


/// Counts a picked-up power-up and unlocks Collector at ten. Returns
/// whether Collector was unlocked now.
pub fn record_powerup_collection(tracker: &mut AchievementTracker, save_data: &mut SaveData) -> (unlocked_now: bool)
    requires
        old(tracker).powerups_collected < u32::MAX,
    ensures
        final(tracker).powerups_collected == old(tracker).powerups_collected + 1,
        unlocked_now == (final(tracker).powerups_collected >= 10 && !old(tracker).unlocked@.contains(AchievementId::Collector)),
        (final(tracker).unlocked@, texts(final(save_data).achievements@))
            == unlock_step(old(tracker).unlocked@, texts(old(save_data).achievements@), AchievementId::Collector,
                final(tracker).powerups_collected >= 10),
        final(tracker).new_unlock == (if unlocked_now { Some(AchievementId::Collector) } else { old(tracker).new_unlock }),
        final(save_data).high_score == old(save_data).high_score,
        final(save_data).stats == old(save_data).stats,
        final(save_data).settings == old(save_data).settings,
        tracker_wf(*old(tracker)) ==> tracker_wf(*final(tracker)),
{
    tracker.powerups_collected = tracker.powerups_collected + 1;
    let reached = tracker.powerups_collected >= 10;
    check_and_unlock(AchievementId::Collector, reached, tracker, save_data)
}

/// Unlocks First Blood on the first collision. Returns whether it was
/// unlocked now.
pub fn record_collision(tracker: &mut AchievementTracker, save_data: &mut SaveData) -> (unlocked_now: bool)
    ensures
        unlocked_now == !old(tracker).unlocked@.contains(AchievementId::FirstBlood),
        (final(tracker).unlocked@, texts(final(save_data).achievements@))
            == unlock_step(old(tracker).unlocked@, texts(old(save_data).achievements@), AchievementId::FirstBlood, true),
        final(tracker).new_unlock == (if unlocked_now { Some(AchievementId::FirstBlood) } else { old(tracker).new_unlock }),
        final(tracker).powerups_collected == old(tracker).powerups_collected,
        final(save_data).high_score == old(save_data).high_score,
        final(save_data).stats == old(save_data).stats,
        final(save_data).settings == old(save_data).settings,
        tracker_wf(*old(tracker)) ==> tracker_wf(*final(tracker)),
{
    check_and_unlock(AchievementId::FirstBlood, true, tracker, save_data)
}

/// Unlocks Game Over when a game ends. Returns whether it was unlocked now.
pub fn record_game_over(tracker: &mut AchievementTracker, save_data: &mut SaveData) -> (unlocked_now: bool)
    ensures
        unlocked_now == !old(tracker).unlocked@.contains(AchievementId::GameOver),
        (final(tracker).unlocked@, texts(final(save_data).achievements@))
            == unlock_step(old(tracker).unlocked@, texts(old(save_data).achievements@), AchievementId::GameOver, true),
        final(tracker).new_unlock == (if unlocked_now { Some(AchievementId::GameOver) } else { old(tracker).new_unlock }),
        final(tracker).powerups_collected == old(tracker).powerups_collected,
        final(save_data).high_score == old(save_data).high_score,
        final(save_data).stats == old(save_data).stats,
        final(save_data).settings == old(save_data).settings,
        tracker_wf(*old(tracker)) ==> tracker_wf(*final(tracker)),
{
    check_and_unlock(AchievementId::GameOver, true, tracker, save_data)
}

/// Unlocked achievements and saved names after the checks made while
/// playing, in this order: High Scorer (1000 points), Master (5000), Legend
/// (10000), Survivor (60 s), Speed Demon (level 5, a level every 10 s) and
/// Collector (10 power-ups).
pub open spec fn play_checks(
    unlocked: Seq<AchievementId>,
    saved: Seq<Seq<char>>,
    score: nat,
    elapsed_ms: nat,
    powerups: nat,
) -> (Seq<AchievementId>, Seq<Seq<char>>) {
    let r1 = unlock_step(unlocked, saved, AchievementId::HighScorer, score >= 1000);
    let r2 = unlock_step(r1.0, r1.1, AchievementId::Master, score >= 5000);
    let r3 = unlock_step(r2.0, r2.1, AchievementId::Legend, score >= 10000);
    let r4 = unlock_step(r3.0, r3.1, AchievementId::Survivor, elapsed_ms >= 60000);
    let r5 = unlock_step(r4.0, r4.1, AchievementId::SpeedDemon, difficulty_level(elapsed_ms, 10000) >= 5);
    unlock_step(r5.0, r5.1, AchievementId::Collector, powerups >= 10)
}

/// An achievement is unlocked after one check exactly when it already was,
/// or it is the one checked and its condition holds.
pub proof fn lemma_unlock_step_contains(
    unlocked: Seq<AchievementId>,
    saved: Seq<Seq<char>>,
    a: AchievementId,
    condition: bool,
    x: AchievementId,
)
    ensures
        unlock_step(unlocked, saved, a, condition).0.contains(x) <==> (unlocked.contains(x) || (x == a && condition)),
{
    let u1 = unlock_step(unlocked, saved, a, condition).0;
    if condition && !unlocked.contains(a) {
        assert(u1[u1.len() - 1] == a);
        if unlocked.contains(x) {
            let k = choose|k: int| 0 <= k < unlocked.len() && unlocked[k] == x;
            assert(u1[k] == x);
        }
        if u1.contains(x) && x != a {
            let k = choose|k: int| 0 <= k < u1.len() && u1[k] == x;
            assert(k < unlocked.len());
            assert(unlocked[k] == x);
        }
    }
}

/// An achievement is unlocked after the checks made while playing exactly
/// when it already was or its own check's condition holds.
proof fn lemma_play_checks_contains(
    unlocked: Seq<AchievementId>,
    saved: Seq<Seq<char>>,
    score: nat,
    elapsed_ms: nat,
    powerups: nat,
    x: AchievementId,
)
    ensures
        play_checks(unlocked, saved, score, elapsed_ms, powerups).0.contains(x) <==> (unlocked.contains(x)
            || (x == AchievementId::HighScorer && score >= 1000)
            || (x == AchievementId::Master && score >= 5000)
            || (x == AchievementId::Legend && score >= 10000)
            || (x == AchievementId::Survivor && elapsed_ms >= 60000)
            || (x == AchievementId::SpeedDemon && difficulty_level(elapsed_ms, 10000) >= 5)
            || (x == AchievementId::Collector && powerups >= 10)),
{
    let level_five = difficulty_level(elapsed_ms, 10000) >= 5;
    let r1 = unlock_step(unlocked, saved, AchievementId::HighScorer, score >= 1000);
    let r2 = unlock_step(r1.0, r1.1, AchievementId::Master, score >= 5000);
    let r3 = unlock_step(r2.0, r2.1, AchievementId::Legend, score >= 10000);
    let r4 = unlock_step(r3.0, r3.1, AchievementId::Survivor, elapsed_ms >= 60000);
    let r5 = unlock_step(r4.0, r4.1, AchievementId::SpeedDemon, level_five);
    lemma_unlock_step_contains(unlocked, saved, AchievementId::HighScorer, score >= 1000, x);
    lemma_unlock_step_contains(r1.0, r1.1, AchievementId::Master, score >= 5000, x);
    lemma_unlock_step_contains(r2.0, r2.1, AchievementId::Legend, score >= 10000, x);
    lemma_unlock_step_contains(r3.0, r3.1, AchievementId::Survivor, elapsed_ms >= 60000, x);
    lemma_unlock_step_contains(r4.0, r4.1, AchievementId::SpeedDemon, level_five, x);
    lemma_unlock_step_contains(r5.0, r5.1, AchievementId::Collector, powerups >= 10, x);
}

/// The checks made while playing unlock each achievement at the threshold
/// its description names and at no other: High Scorer at 1000 points,
/// Master at 5000, Legend at 10000, Survivor after 60 seconds, Speed Demon
/// at level 5 (after 40 seconds) and Collector at 10 power-ups. First Blood
/// and Game Over are never unlocked by them.
pub proof fn lemma_play_check_thresholds(
    unlocked: Seq<AchievementId>,
    saved: Seq<Seq<char>>,
    score: nat,
    elapsed_ms: nat,
    powerups: nat,
)
    ensures
        ({
            let u = play_checks(unlocked, saved, score, elapsed_ms, powerups).0;
            &&& u.contains(AchievementId::HighScorer) <==> (unlocked.contains(AchievementId::HighScorer) || score >= 1000)
            &&& u.contains(AchievementId::Master) <==> (unlocked.contains(AchievementId::Master) || score >= 5000)
            &&& u.contains(AchievementId::Legend) <==> (unlocked.contains(AchievementId::Legend) || score >= 10000)
            &&& u.contains(AchievementId::Survivor) <==> (unlocked.contains(AchievementId::Survivor) || elapsed_ms >= 60000)
            &&& u.contains(AchievementId::SpeedDemon) <==> (unlocked.contains(AchievementId::SpeedDemon) || elapsed_ms >= 40000)
            &&& u.contains(AchievementId::Collector) <==> (unlocked.contains(AchievementId::Collector) || powerups >= 10)
            &&& u.contains(AchievementId::FirstBlood) <==> unlocked.contains(AchievementId::FirstBlood)
            &&& u.contains(AchievementId::GameOver) <==> unlocked.contains(AchievementId::GameOver)
        }),
{
    assert(difficulty_level(elapsed_ms, 10000) >= 5 <==> elapsed_ms >= 40000) by {
        if elapsed_ms >= 40000 {
            vstd::arithmetic::div_mod::lemma_div_is_ordered(40000, elapsed_ms as int, 10000);
        } else {
            vstd::arithmetic::div_mod::lemma_div_is_ordered(elapsed_ms as int, 39999, 10000);
        }
    }
    lemma_play_checks_contains(unlocked, saved, score, elapsed_ms, powerups, AchievementId::HighScorer);
    lemma_play_checks_contains(unlocked, saved, score, elapsed_ms, powerups, AchievementId::Master);
    lemma_play_checks_contains(unlocked, saved, score, elapsed_ms, powerups, AchievementId::Legend);
    lemma_play_checks_contains(unlocked, saved, score, elapsed_ms, powerups, AchievementId::Survivor);
    lemma_play_checks_contains(unlocked, saved, score, elapsed_ms, powerups, AchievementId::SpeedDemon);
    lemma_play_checks_contains(unlocked, saved, score, elapsed_ms, powerups, AchievementId::Collector);
    lemma_play_checks_contains(unlocked, saved, score, elapsed_ms, powerups, AchievementId::FirstBlood);
    lemma_play_checks_contains(unlocked, saved, score, elapsed_ms, powerups, AchievementId::GameOver);
}

/// Runs the checks made while playing (see `play_checks`) and returns
/// whether anything was unlocked, in which case the save data is to be
/// written out.
pub fn check_achievements(
    tracker: &mut AchievementTracker,
    save_data: &mut SaveData,
    score: u32,
    elapsed_ms: u64,
) -> (unlocked_any: bool)
    requires
        elapsed_ms / 10000 < u32::MAX,
    ensures
        (final(tracker).unlocked@, texts(final(save_data).achievements@)) == play_checks(
            old(tracker).unlocked@,
            texts(old(save_data).achievements@),
            score as nat,
            elapsed_ms as nat,
            old(tracker).powerups_collected as nat,
        ),
        unlocked_any == (final(tracker).unlocked@.len() > old(tracker).unlocked@.len()),
        final(tracker).new_unlock == (if unlocked_any { Some(final(tracker).unlocked@.last()) } else { old(tracker).new_unlock }),
        final(tracker).powerups_collected == old(tracker).powerups_collected,
        final(save_data).high_score == old(save_data).high_score,
        final(save_data).stats == old(save_data).stats,
        final(save_data).settings == old(save_data).settings,
        tracker_wf(*old(tracker)) ==> tracker_wf(*final(tracker)),
{
    let mut any = check_and_unlock(AchievementId::HighScorer, score >= 1000, tracker, save_data);
    any = check_and_unlock(AchievementId::Master, score >= 5000, tracker, save_data) || any;
    any = check_and_unlock(AchievementId::Legend, score >= 10000, tracker, save_data) || any;
    any = check_and_unlock(AchievementId::Survivor, elapsed_ms >= 60000, tracker, save_data) || any;
    let level = calculate_difficulty_level(elapsed_ms, 10000);
    any = check_and_unlock(AchievementId::SpeedDemon, level >= 5, tracker, save_data) || any;
    let collected = tracker.powerups_collected >= 10;
    any = check_and_unlock(AchievementId::Collector, collected, tracker, save_data) || any;
    any
}

/// Achievements named in the save data, each once; unknown names are
/// skipped.
pub fn unlocked_from_save(save_data: &SaveData) -> (unlocked: Vec<AchievementId>)
    ensures
        unlocked@.no_duplicates(),
        forall|a: AchievementId| unlocked@.contains(a) <==>
            exists|i: int| 0 <= i < save_data.achievements@.len() && parse_achievement(#[trigger] save_data.achievements@[i]@) == Some(a),
{
    let mut unlocked: Vec<AchievementId> = Vec::new();
    let mut i: usize = 0;
    while i < save_data.achievements.len()
        invariant
            i <= save_data.achievements@.len(),
            unlocked@.no_duplicates(),
            forall|a: AchievementId| unlocked@.contains(a) <==>
                exists|j: int| 0 <= j < i && parse_achievement(#[trigger] save_data.achievements@[j]@) == Some(a),
        decreases save_data.achievements@.len() - i,
    {
        let parsed = AchievementId::from_str(save_data.achievements[i].as_str());
        let ghost before = unlocked@;
        match parsed {
            Some(a) => {
                if !is_unlocked(&unlocked, a) {
                    unlocked.push(a);
                    proof {
                        assert(unlocked@ == before.push(a));
                        assert forall|x: AchievementId| unlocked@.contains(x) <==> before.contains(x) || x == a by {
                            if unlocked@.contains(x) {
                                let k = choose|k: int| 0 <= k < unlocked@.len() && unlocked@[k] == x;
                                if k < before.len() {
                                    assert(before[k] == x);
                                }
                            }
                            if before.contains(x) {
                                let k = choose|k: int| 0 <= k < before.len() && before[k] == x;
                                assert(unlocked@[k] == x);
                            }
                            if x == a {
                                assert(unlocked@[before.len() as int] == a);
                            }
                        }
                    }
                }
            },
            None => {},
        }
        proof {
            assert forall|x: AchievementId| unlocked@.contains(x) <==> (before.contains(x) || parsed == Some(x)) by {
                if parsed == Some(x) && !unlocked@.contains(x) {
                    assert(before.contains(x));
                }
            }
            assert forall|a: AchievementId| unlocked@.contains(a) <==>
                exists|j: int| 0 <= j < i + 1 && parse_achievement(#[trigger] save_data.achievements@[j]@) == Some(a) by {
                if unlocked@.contains(a) {
                    if parsed == Some(a) {
                        assert(parse_achievement(save_data.achievements@[i as int]@) == Some(a));
                    } else {
                        assert(before.contains(a));
                    }
                }
                if exists|j: int| 0 <= j < i + 1 && parse_achievement(#[trigger] save_data.achievements@[j]@) == Some(a) {
                    let j = choose|j: int| 0 <= j < i + 1 && parse_achievement(#[trigger] save_data.achievements@[j]@) == Some(a);
                    if j < i {
                        assert(before.contains(a));
                    } else {
                        assert(parsed == Some(a));
                    }
                }
            }
        }
        i = i + 1;
    }
    unlocked
}

/// Line of the achievements screen for one achievement.
pub open spec fn achievement_line_text(a: AchievementId, unlocked: bool) -> Seq<char> {
    (if unlocked { "[X]"@ } else { "[ ]"@ }) + " "@ + achievement_name(a) + " - "@ + achievement_description(a)
}

/// Line of the achievements screen, such as "[X] Survivor - Survive for 1
/// minute".
pub fn achievement_line(a: AchievementId, unlocked: bool) -> (line: String)
    ensures
        line@ == achievement_line_text(a, unlocked),
{
    let mut line = if unlocked { owned("[X]") } else { owned("[ ]") };
    line.append(" ");
    line.append(a.name());
    line.append(" - ");
    line.append(a.description());
    line
}

} // verus!
