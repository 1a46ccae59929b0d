use vstd::prelude::*;
use vstd::string::StringExecFns;
use crate::game::{GameState, KeyPresses, handle_menu_navigation, menu_navigation};
use crate::save::SettingsData;
use crate::text::{append_decimal, ascii_lower_code, decimal, eq_ignoring_ascii_case, equals_ignoring_ascii_case, lemma_eq_ignoring_ascii_case_agree, owned};

verus! {

/// Difficulty chosen in the settings.
#[derive(PartialEq, Eq, Structural, Clone, Copy, Debug)]
pub enum DifficultyLevel {
    Easy,
    Normal,
    Hard,
}

/// Lives a difficulty gives.
pub open spec fn difficulty_lives(d: DifficultyLevel) -> u32 {
    match d {
        DifficultyLevel::Easy => 5,
        DifficultyLevel::Normal => 3,
        DifficultyLevel::Hard => 2,
    }
}

/// Speed, in percent, a difficulty gives.
pub open spec fn difficulty_speed_multiplier(d: DifficultyLevel) -> u64 {
    match d {
        DifficultyLevel::Easy => 75,
        DifficultyLevel::Normal => 100,
        DifficultyLevel::Hard => 125,
    }
}

/// Spawn interval, in percent, a difficulty gives.
pub open spec fn difficulty_spawn_interval_multiplier(d: DifficultyLevel) -> u64 {
    match d {
        DifficultyLevel::Easy => 150,
        DifficultyLevel::Normal => 100,
        DifficultyLevel::Hard => 75,
    }
}

/// Display name of a difficulty.
pub open spec fn difficulty_name(d: DifficultyLevel) -> Seq<char> {
    match d {
        DifficultyLevel::Easy => "Easy"@,
        DifficultyLevel::Normal => "Normal"@,
        DifficultyLevel::Hard => "Hard"@,
    }
}

/// Name under which a difficulty is saved: its display name in small letters.
pub open spec fn difficulty_key(d: DifficultyLevel) -> Seq<char> {
    match d {
        DifficultyLevel::Easy => "easy"@,
        DifficultyLevel::Normal => "normal"@,
        DifficultyLevel::Hard => "hard"@,
    }
}

/// Difficulty named by a saved text: "easy" or "hard" in any ASCII case,
/// anything else means Normal.
pub open spec fn parse_difficulty(s: Seq<char>) -> DifficultyLevel {
    if eq_ignoring_ascii_case(s, "easy"@) {
        DifficultyLevel::Easy
    } else if eq_ignoring_ascii_case(s, "hard"@) {
        DifficultyLevel::Hard
    } else {
        DifficultyLevel::Normal
    }
}

impl DifficultyLevel {
    /// Display name.
    pub fn name(&self) -> (name: &'static str)
        ensures
            name@ == difficulty_name(*self),
    {
        match self {
            DifficultyLevel::Easy => "Easy",
            DifficultyLevel::Normal => "Normal",
            DifficultyLevel::Hard => "Hard",
        }
    }

    /// Speed of the world in percent.
    pub fn speed_multiplier(&self) -> (m: u64)
        ensures
            m == difficulty_speed_multiplier(*self),
    {
        match self {
            DifficultyLevel::Easy => 75,
            DifficultyLevel::Normal => 100,
            DifficultyLevel::Hard => 125,
        }
    }

    /// Lives a game starts with.
    pub fn lives(&self) -> (lives: u32)
        ensures
            lives == difficulty_lives(*self),
    {
        match self {
            DifficultyLevel::Easy => 5,
            DifficultyLevel::Normal => 3,
            DifficultyLevel::Hard => 2,
        }
    }

    /// Time between spawns in percent.
    pub fn spawn_interval_multiplier(&self) -> (m: u64)
        ensures
            m == difficulty_spawn_interval_multiplier(*self),
    {
        match self {
            DifficultyLevel::Easy => 150,
            DifficultyLevel::Normal => 100,
            DifficultyLevel::Hard => 75,
        }
    }

    /// Reads a saved difficulty; the case of ASCII letters does not matter
    /// and an unknown name gives Normal.
    pub fn from_str(s: &str) -> (d: DifficultyLevel)
        ensures
            d == parse_difficulty(s@),
    {
        if equals_ignoring_ascii_case(s, "easy") {
            DifficultyLevel::Easy
        } else if equals_ignoring_ascii_case(s, "hard") {
            DifficultyLevel::Hard
        } else {
            DifficultyLevel::Normal
        }
    }

    /// Name under which the difficulty is saved.
    pub fn to_string(&self) -> (s: String)
        ensures
            s@ == difficulty_key(*self),
    {
        match self {
            DifficultyLevel::Easy => owned("easy"),
            DifficultyLevel::Normal => owned("normal"),
            DifficultyLevel::Hard => owned("hard"),
        }
    }
}

/// A saved difficulty reads back as itself.
pub proof fn lemma_difficulty_key_round_trip(d: DifficultyLevel)
    ensures
        parse_difficulty(difficulty_key(d)) == d,
{
    reveal_strlit("easy");
    reveal_strlit("normal");
    reveal_strlit("hard");
    match d {
        DifficultyLevel::Easy => {
            assert(eq_ignoring_ascii_case("easy"@, "easy"@));
        },
        DifficultyLevel::Normal => {
            assert(!eq_ignoring_ascii_case("normal"@, "easy"@));
            assert(!eq_ignoring_ascii_case("normal"@, "hard"@));
        },
        DifficultyLevel::Hard => {
            assert(crate::text::ascii_lower_code("hard"@[0]) != crate::text::ascii_lower_code("easy"@[0]));
            assert(!eq_ignoring_ascii_case("hard"@, "easy"@));
            assert(eq_ignoring_ascii_case("hard"@, "hard"@));
        },
    }
}

/// A difficulty's display name reads back as the difficulty, and texts that
/// differ only in the case of ASCII letters (such as a text and its
/// upper-case form) read as the same difficulty.
pub proof fn lemma_difficulty_from_str(d: DifficultyLevel, s: Seq<char>, t: Seq<char>)
    ensures
        parse_difficulty(difficulty_name(d)) == d,
        eq_ignoring_ascii_case(s, t) ==> parse_difficulty(s) == parse_difficulty(t),
{
    reveal_strlit("easy");
    reveal_strlit("hard");
    reveal_strlit("Easy");
    reveal_strlit("Normal");
    reveal_strlit("Hard");
    match d {
        DifficultyLevel::Easy => {
            assert(ascii_lower_code("Easy"@[0]) == ascii_lower_code("easy"@[0]));
            assert(eq_ignoring_ascii_case("Easy"@, "easy"@));
        },
        DifficultyLevel::Normal => {
            assert(!eq_ignoring_ascii_case("Normal"@, "easy"@));
            assert(!eq_ignoring_ascii_case("Normal"@, "hard"@));
        },
        DifficultyLevel::Hard => {
            assert(ascii_lower_code("Hard"@[0]) != ascii_lower_code("easy"@[0]));
            assert(!eq_ignoring_ascii_case("Hard"@, "easy"@));
            assert(ascii_lower_code("Hard"@[0]) == ascii_lower_code("hard"@[0]));
            assert(eq_ignoring_ascii_case("Hard"@, "hard"@));
        },
    }
    if eq_ignoring_ascii_case(s, t) {
        lemma_eq_ignoring_ascii_case_agree(s, t, "easy"@);
        lemma_eq_ignoring_ascii_case_agree(s, t, "hard"@);
    }
}

/// The difficulty after `d` in the order Easy, Normal, Hard, wrapping.
pub open spec fn next_difficulty(d: DifficultyLevel) -> DifficultyLevel {
    match d {
        DifficultyLevel::Easy => DifficultyLevel::Normal,
        DifficultyLevel::Normal => DifficultyLevel::Hard,
        DifficultyLevel::Hard => DifficultyLevel::Easy,
    }
}

/// The difficulty before `d`, wrapping.
pub open spec fn previous_difficulty(d: DifficultyLevel) -> DifficultyLevel {
    match d {
        DifficultyLevel::Easy => DifficultyLevel::Hard,
        DifficultyLevel::Normal => DifficultyLevel::Easy,
        DifficultyLevel::Hard => DifficultyLevel::Normal,
    }
}

/// Steps the difficulty forward when `delta > 0`, backward otherwise.
pub fn cycle_difficulty(d: DifficultyLevel, delta: i32) -> (cycled: DifficultyLevel)
    ensures
        cycled == (if delta > 0 { next_difficulty(d) } else { previous_difficulty(d) }),
{
    match d {
        DifficultyLevel::Easy => if delta > 0 { DifficultyLevel::Normal } else { DifficultyLevel::Hard },
        DifficultyLevel::Normal => if delta > 0 { DifficultyLevel::Hard } else { DifficultyLevel::Easy },
        DifficultyLevel::Hard => if delta > 0 { DifficultyLevel::Easy } else { DifficultyLevel::Normal },
    }
}

/// Stepping the difficulty back undoes a step forward and the other way
/// round; three steps come back to the start.
pub proof fn lemma_difficulty_cycle(d: DifficultyLevel)
    ensures
        previous_difficulty(next_difficulty(d)) == d,
        next_difficulty(previous_difficulty(d)) == d,
        next_difficulty(next_difficulty(next_difficulty(d))) == d,
{
}

/// Volume after one step of `delta` tenths, kept between 0 and 100 percent.
pub open spec fn adjusted_volume(volume: int, delta: int) -> int {
    let v = volume + 10 * delta;
    if v < 0 { 0 } else if v > 100 { 100 } else { v }
}

/// Changes a volume by `delta` steps of ten percent, kept within 0..=100.
pub fn adjust_volume(volume: u32, delta: i32) -> (adjusted: u32)
    ensures
        adjusted == adjusted_volume(volume as int, delta as int),
        adjusted <= 100,
{
    let v: i64 = volume as i64 + delta as i64 * 10;
    if v < 0 {
        0
    } else if v > 100 {
        100
    } else {
        v as u32
    }
}

impl Default for GameSettings {
    fn default() -> (s: Self)
        ensures
            s.difficulty == DifficultyLevel::Normal,
            s.master_volume == 80,
            s.music_volume == 50,
            s.sfx_volume == 70,
    {
        GameSettings { difficulty: DifficultyLevel::Normal, master_volume: 80, music_volume: 50, sfx_volume: 70 }
    }
}

/// Player settings; volumes are percentages.
pub struct GameSettings {
    pub difficulty: DifficultyLevel,
    pub master_volume: u32,
    pub music_volume: u32,
    pub sfx_volume: u32,
}

/// Settings read back from their saved form.
pub open spec fn settings_from_data(data: SettingsData) -> GameSettings {
    GameSettings {
        difficulty: parse_difficulty(data.difficulty@),
        master_volume: data.master_volume,
        music_volume: data.music_volume,
        sfx_volume: data.sfx_volume,
    }
}

/// Settings that are saved and read back are the settings that were saved.
pub proof fn lemma_settings_round_trip(settings: GameSettings, data: SettingsData)
    requires
        data.difficulty@ == difficulty_key(settings.difficulty),
        data.master_volume == settings.master_volume,
        data.music_volume == settings.music_volume,
        data.sfx_volume == settings.sfx_volume,
    ensures
        settings_from_data(data) == settings,
{
    lemma_difficulty_key_round_trip(settings.difficulty);
}

impl<'a> From<&'a SettingsData> for GameSettings {
    fn from(data: &'a SettingsData) -> (s: Self) {
        GameSettings {
            difficulty: DifficultyLevel::from_str(data.difficulty.as_str()),
            master_volume: data.master_volume,
            music_volume: data.music_volume,
            sfx_volume: data.sfx_volume,
        }
    }
}

impl<'a> vstd::std_specs::convert::FromSpecImpl<&'a SettingsData> for GameSettings {
    open spec fn obeys_from_spec() -> bool {
        true
    }

    open spec fn from_spec(data: &'a SettingsData) -> Self {
        settings_from_data(*data)
    }
}


/// Number of entries in the settings screen.
pub const SETTINGS_OPTION_COUNT: usize = 4;

/// Entries of the settings screen, in screen order.
#[derive(PartialEq, Eq, Structural, Clone, Copy, Debug)]
pub enum SettingsOption {
    Difficulty,
    MasterVolume,
    MusicVolume,
    SfxVolume,
}

/// Settings after one left (`delta < 0`) or right step on the entry at
/// `selected`: the difficulty cycles, a volume moves by ten percent, any
/// other entry changes nothing.
pub open spec fn adjusted_settings(s: GameSettings, selected: int, delta: int) -> GameSettings {
    if selected == 0 {
        GameSettings {
            difficulty: if delta > 0 { next_difficulty(s.difficulty) } else { previous_difficulty(s.difficulty) },
            ..s
        }
    } else if selected == 1 {
        GameSettings { master_volume: adjusted_volume(s.master_volume as int, delta) as u32, ..s }
    } else if selected == 2 {
        GameSettings { music_volume: adjusted_volume(s.music_volume as int, delta) as u32, ..s }
    } else if selected == 3 {
        GameSettings { sfx_volume: adjusted_volume(s.sfx_volume as int, delta) as u32, ..s }
    } else {
        s
    }
}

/// Entry at `index` of the settings screen, top to bottom.
pub open spec fn settings_option_at(index: int) -> SettingsOption {
    if index == 0 {
        SettingsOption::Difficulty
    } else if index == 1 {
        SettingsOption::MasterVolume
    } else if index == 2 {
        SettingsOption::MusicVolume
    } else {
        SettingsOption::SfxVolume
    }
}

/// A left or right step changes only the setting the selected entry shows:
/// the difficulty cycles on the first entry, and on each volume entry that
/// volume moves by ten percent within 0..=100 while the other settings are
/// kept. Every entry other than the selected one shows the same text as
/// before.
pub proof fn lemma_step_changes_only_selected_entry(s: GameSettings, selected: int, delta: int)
    ensures
        ({
            let r = adjusted_settings(s, selected, delta);
            &&& selected == 0 ==> r.difficulty == (if delta > 0 { next_difficulty(s.difficulty) } else { previous_difficulty(s.difficulty) })
                && r.master_volume == s.master_volume && r.music_volume == s.music_volume && r.sfx_volume == s.sfx_volume
            &&& selected == 1 ==> r.master_volume == adjusted_volume(s.master_volume as int, delta)
                && r.difficulty == s.difficulty && r.music_volume == s.music_volume && r.sfx_volume == s.sfx_volume
            &&& selected == 2 ==> r.music_volume == adjusted_volume(s.music_volume as int, delta)
                && r.difficulty == s.difficulty && r.master_volume == s.master_volume && r.sfx_volume == s.sfx_volume
            &&& selected == 3 ==> r.sfx_volume == adjusted_volume(s.sfx_volume as int, delta)
                && r.difficulty == s.difficulty && r.master_volume == s.master_volume && r.music_volume == s.music_volume
            &&& !(0 <= selected < 4) ==> r == s
            &&& forall|k: int| 0 <= k < 4 && k != selected ==>
                #[trigger] settings_option_text(settings_option_at(k), r) == settings_option_text(settings_option_at(k), s)
        }),
{
    let r = adjusted_settings(s, selected, delta);
    assert forall|k: int| 0 <= k < 4 && k != selected implies
        #[trigger] settings_option_text(settings_option_at(k), r) == settings_option_text(settings_option_at(k), s) by {
        if k == 0 {
            assert(r.difficulty == s.difficulty);
        } else if k == 1 {
            assert(r.master_volume == s.master_volume);
        } else if k == 2 {
            assert(r.music_volume == s.music_volume);
        } else {
            assert(r.sfx_volume == s.sfx_volume);
        }
    }
}

/// What one frame of input on the settings screen leads to.
pub struct SettingsOutcome {
    /// The settings changed and are to be saved.
    pub changed: bool,
    /// Screen to switch to, if any.
    pub next_state: Option<GameState>,
}

/// One frame of the settings screen: up and down move the selection
/// (wrapping), left and right change the selected entry (right wins when
/// both are pressed), Escape goes back to the menu.
pub fn settings_input(selected: &mut usize, settings: &mut GameSettings, keys: &KeyPresses) -> (outcome: SettingsOutcome)
    requires
        keys.arrow_down && !keys.arrow_up ==> *old(selected) < usize::MAX,
    ensures
        ({
            let after_up = if keys.arrow_up {
                menu_navigation(*old(selected) as int, -1, SETTINGS_OPTION_COUNT as int)
            } else {
                *old(selected) as int
            };
            let after_down = if keys.arrow_down {
                menu_navigation(after_up, 1, SETTINGS_OPTION_COUNT as int)
            } else {
                after_up
            };
            &&& *final(selected) == after_down
            &&& outcome.changed == (keys.arrow_left || keys.arrow_right)
            &&& *final(settings) == (if keys.arrow_left || keys.arrow_right {
                adjusted_settings(*old(settings), after_down, if keys.arrow_right { 1 } else { -1 })
            } else {
                *old(settings)
            })
            &&& outcome.next_state == (if keys.escape { Some(GameState::Menu) } else { None })
        }),
{
    if keys.arrow_up {
        *selected = handle_menu_navigation(*selected, -1, SETTINGS_OPTION_COUNT);
    }
    if keys.arrow_down {
        *selected = handle_menu_navigation(*selected, 1, SETTINGS_OPTION_COUNT);
    }
    let mut changed = false;
    if keys.arrow_left || keys.arrow_right {
        let delta: i32 = if keys.arrow_right { 1 } else { -1 };
        if *selected == 0 {
            settings.difficulty = cycle_difficulty(settings.difficulty, delta);
        } else if *selected == 1 {
            settings.master_volume = adjust_volume(settings.master_volume, delta);
        } else if *selected == 2 {
            settings.music_volume = adjust_volume(settings.music_volume, delta);
        } else if *selected == 3 {
            settings.sfx_volume = adjust_volume(settings.sfx_volume, delta);
        }
        changed = true;
    }
    let next_state = if keys.escape { Some(GameState::Menu) } else { None };
    SettingsOutcome { changed, next_state }
}

/// Text of an entry of the settings screen.
pub open spec fn settings_option_text(option: SettingsOption, s: GameSettings) -> Seq<char> {
    match option {
        SettingsOption::Difficulty => "Difficulty: "@ + difficulty_name(s.difficulty),
        SettingsOption::MasterVolume => "Master Volume: "@ + decimal(s.master_volume as nat) + "%"@,
        SettingsOption::MusicVolume => "Music Volume: "@ + decimal(s.music_volume as nat) + "%"@,
        SettingsOption::SfxVolume => "SFX Volume: "@ + decimal(s.sfx_volume as nat) + "%"@,
    }
}

/// Text of an entry of the settings screen, such as "Master Volume: 80%".
pub fn settings_option_label(option: SettingsOption, settings: &GameSettings) -> (label: String)
    ensures
        label@ == settings_option_text(option, *settings),
{
    let (title, volume) = match option {
        SettingsOption::Difficulty => {
            let mut label = owned("Difficulty: ");
            label.append(settings.difficulty.name());
            return label;
        },
        SettingsOption::MasterVolume => ("Master Volume: ", settings.master_volume),
        SettingsOption::MusicVolume => ("Music Volume: ", settings.music_volume),
        SettingsOption::SfxVolume => ("SFX Volume: ", settings.sfx_volume),
    };
    let mut label = owned(title);
    append_decimal(&mut label, volume as u64);
    label.append("%");
    label
}

} // verus!
