use vstd::prelude::*;
use crate::timer::{count_down, counted_down};

verus! {

/// Lives and invincibility settings.
pub struct LifeConfig {
    pub max_lives: u32,
    /// Invincibility after a hit (milliseconds).
    pub invincibility_duration: i64,
}

impl Default for LifeConfig {
    fn default() -> (c: Self)
        ensures
            c.max_lives == 3,
            c.invincibility_duration == 2000,
    {
        LifeConfig { max_lives: 3, invincibility_duration: 2000 }
    }
}

/// The player's lives.
pub struct PlayerLife {
    pub lives: u32,
    pub is_invincible: bool,
    /// Invincibility left (milliseconds).
    pub invincibility_timer: i64,
}

impl Default for PlayerLife {
    fn default() -> (l: Self)
        ensures
            l.lives == 3,
            !l.is_invincible,
            l.invincibility_timer == 0,
    {
        PlayerLife { lives: 3, is_invincible: false, invincibility_timer: 0 }
    }
}


/// Lives after a hit that is not absorbed: one less, never below zero.
pub open spec fn lives_after_hit(lives: u32) -> u32 {
    if lives > 0 { (lives - 1) as u32 } else { 0 }
}

/// Restores full lives when a game starts.
pub fn reset_life(player_life: &mut PlayerLife, config: &LifeConfig)
    ensures
        final(player_life).lives == config.max_lives,
        !final(player_life).is_invincible,
        final(player_life).invincibility_timer == 0,
{
    player_life.lives = config.max_lives;
    player_life.is_invincible = false;
    player_life.invincibility_timer = 0;
}

/// Counts the invincibility down by one frame of `delta_ms` milliseconds;
/// it ends when its time reaches zero or less. Returns whether the player is
/// still invincible.
pub fn update_invincibility(player_life: &mut PlayerLife, delta_ms: u32) -> (invincible: bool)
    ensures
        final(player_life).lives == old(player_life).lives,
        invincible == final(player_life).is_invincible,
        !old(player_life).is_invincible ==> *final(player_life) == *old(player_life),
        old(player_life).is_invincible ==> final(player_life).invincibility_timer
                == counted_down(old(player_life).invincibility_timer as int, delta_ms as int)
            && final(player_life).is_invincible == (old(player_life).invincibility_timer - delta_ms > 0),
{
    if player_life.is_invincible {
        player_life.invincibility_timer = count_down(player_life.invincibility_timer, delta_ms);
        if player_life.invincibility_timer <= 0 {
            player_life.is_invincible = false;
        }
    }
    player_life.is_invincible
}

/// Applies a hit with an obstacle and returns whether the game is over.
/// While invincible nothing happens. Otherwise a life is lost (none below
/// zero); with no life left the game is over, else a spell of
/// invincibility starts.
pub fn handle_collision(player_life: &mut PlayerLife, config: &LifeConfig) -> (game_over: bool)
    ensures
        old(player_life).is_invincible ==> !game_over && *final(player_life) == *old(player_life),
        !old(player_life).is_invincible ==> {
            &&& final(player_life).lives == lives_after_hit(old(player_life).lives)
            &&& game_over == (final(player_life).lives == 0)
            &&& game_over ==> !final(player_life).is_invincible
                && final(player_life).invincibility_timer == old(player_life).invincibility_timer
            &&& !game_over ==> final(player_life).is_invincible
                && final(player_life).invincibility_timer == config.invincibility_duration
        },
{
    if player_life.is_invincible {
        return false;
    }
    if player_life.lives > 0 {
        player_life.lives = player_life.lives - 1;
    }
    if player_life.lives == 0 {
        true
    } else {
        player_life.is_invincible = true;
        player_life.invincibility_timer = config.invincibility_duration;
        false
    }
}

/// Hits never add lives, and a game with `n` lives survives exactly `n - 1`
/// unabsorbed hits: the hit that takes the last life ends it.
pub proof fn lemma_lives_after_hits(lives: u32)
    ensures
        lives_after_hit(lives) <= lives,
        lives > 0 ==> lives_after_hit(lives) == lives - 1,
        (lives_after_hit(lives) == 0) == (lives <= 1),
{
}

} // verus!
