use vstd::prelude::*;
use crate::settings::{GameSettings, difficulty_key};
use crate::game::{calculate_difficulty_level, difficulty_level};

verus! {

/// Lifetime statistics kept in the save file.
pub struct GameStats {
    pub total_games_played: u32,
    pub total_score: u64,
    pub max_difficulty_reached: u32,
    pub powerups_collected: u32,
    pub obstacles_dodged: u32,
}

impl Default for GameStats {
    fn default() -> (s: Self)
        ensures
            s.total_games_played == 0,
            s.total_score == 0,
            s.max_difficulty_reached == 0,
            s.powerups_collected == 0,
            s.obstacles_dodged == 0,
    {
        GameStats { total_games_played: 0, total_score: 0, max_difficulty_reached: 0, powerups_collected: 0, obstacles_dodged: 0 }
    }
}

/// Settings as they are saved; volumes are percentages.
pub struct SettingsData {
    /// "easy", "normal" or "hard".
    pub difficulty: String,
    pub master_volume: u32,
    pub music_volume: u32,
    pub sfx_volume: u32,
}

impl Default for SettingsData {
    fn default() -> (s: Self)
        ensures
            s.difficulty@ == "normal"@,
            s.master_volume == 80,
            s.music_volume == 50,
            s.sfx_volume == 70,
    {
        SettingsData { difficulty: crate::text::owned("normal"), master_volume: 80, music_volume: 50, sfx_volume: 70 }
    }
}

impl SettingsData {
    /// The saved form of the player's settings.
    pub fn from_settings(settings: &GameSettings) -> (data: Self)
        ensures
            data.difficulty@ == difficulty_key(settings.difficulty),
            data.master_volume == settings.master_volume,
            data.music_volume == settings.music_volume,
            data.sfx_volume == settings.sfx_volume,
    {
        SettingsData {
            difficulty: settings.difficulty.to_string(),
            master_volume: settings.master_volume,
            music_volume: settings.music_volume,
            sfx_volume: settings.sfx_volume,
        }
    }
}

/// Everything the game keeps between runs.
pub struct SaveData {
    pub high_score: u32,
    pub stats: GameStats,
    /// Names of the unlocked achievements, in the order they were unlocked.
    pub achievements: Vec<String>,
    pub settings: SettingsData,
}

impl Default for SaveData {
    fn default() -> (s: Self)
        ensures
            s.high_score == 0,
            s.stats.total_games_played == 0,
            s.stats.total_score == 0,
            s.stats.max_difficulty_reached == 0,
            s.stats.powerups_collected == 0,
            s.stats.obstacles_dodged == 0,
            s.achievements@.len() == 0,
            s.settings.difficulty@ == "normal"@,
            s.settings.master_volume == 80,
            s.settings.music_volume == 50,
            s.settings.sfx_volume == 70,
    {
        SaveData { high_score: 0, stats: GameStats::default(), achievements: Vec::new(), settings: SettingsData::default() }
    }
}


/// Records a finished game in the save data: the best score becomes the
/// larger of the two, one more game is counted, the score is added to the
/// total, and the highest level is raised to the level reached (a level
/// every ten seconds).
pub fn record_game_result(save_data: &mut SaveData, score: u32, elapsed_ms: u64)
    requires
        old(save_data).stats.total_games_played < u32::MAX,
        old(save_data).stats.total_score + score <= u64::MAX,
        elapsed_ms / 10000 < u32::MAX,
    ensures
        final(save_data).high_score == (if score > old(save_data).high_score { score } else { old(save_data).high_score }),
        final(save_data).high_score >= old(save_data).high_score,
        final(save_data).high_score >= score,
        final(save_data).stats.max_difficulty_reached >= old(save_data).stats.max_difficulty_reached,
        final(save_data).stats.total_games_played == old(save_data).stats.total_games_played + 1,
        final(save_data).stats.total_score == old(save_data).stats.total_score + score,
        final(save_data).stats.max_difficulty_reached == (if difficulty_level(elapsed_ms as nat, 10000) > old(save_data).stats.max_difficulty_reached {
            difficulty_level(elapsed_ms as nat, 10000)
        } else {
            old(save_data).stats.max_difficulty_reached as nat
        }),
        final(save_data).stats.powerups_collected == old(save_data).stats.powerups_collected,
        final(save_data).stats.obstacles_dodged == old(save_data).stats.obstacles_dodged,
        final(save_data).achievements@ == old(save_data).achievements@,
        final(save_data).settings == old(save_data).settings,
{
    if score > save_data.high_score {
        save_data.high_score = score;
    }
    save_data.stats.total_games_played = save_data.stats.total_games_played + 1;
    save_data.stats.total_score = save_data.stats.total_score + score as u64;
    let level = calculate_difficulty_level(elapsed_ms, 10000);
    if level > save_data.stats.max_difficulty_reached {
        save_data.stats.max_difficulty_reached = level;
    }
}

} // verus!
