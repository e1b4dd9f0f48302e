//! The session core: the title/playing state machine, the per-frame
//! update of one round, and the score bookkeeping that outlives rounds.
//!
//! The surrounding program owns the window, polls its events, draws and
//! reads the clock; it hands every event in as an [`InputEvent`] and the
//! elapsed time as milliseconds, and each transition taken here is stated
//! exactly in the contracts.

use vstd::prelude::*;

use crate::field::{moved, pickup, MoveFlags, Position, START_X, START_Y};
use crate::field::{eaten, move_step};
use crate::rng::{gen_state, new_position, placed, seeded_generator, xs_next};

verus! {

/// The keys the core reacts to; every other key is ignored.
#[derive(Clone, Copy, Debug, PartialEq, Eq, Structural)]
pub enum Key {
    Return,
    Q,
    Left,
    Right,
    Up,
    Down,
}

/// One input event handed in by the window layer.
#[derive(Clone, Copy, Debug, PartialEq, Eq, Structural)]
pub enum InputEvent {
    Closed,
    KeyPressed(Key),
    KeyReleased(Key),
}

/// What the title screen does with one event.
#[derive(Clone, Copy, Debug, PartialEq, Eq, Structural)]
pub enum TitleStep {
    /// Keep showing the title.
    Stay,
    /// Arm a fresh round and start playing.
    StartRound,
    /// Close the whole session.
    Quit,
}

/// What the playing state does with one event.
#[derive(Clone, Copy, Debug, PartialEq, Eq, Structural)]
pub enum PlayStep {
    /// Keep playing the round.
    Continue,
    /// Abandon the round and return to the title; nothing is committed.
    Abandon,
    /// Close the whole session; nothing is committed.
    Quit,
}

/// Frames between two background advances.
pub const FRAMES_PER_BG: u32 = 15;

/// Round length: the clock budget of one round, in milliseconds.
pub const ROUND_MS: u64 = 30000;

/// The step the title screen takes on one event: confirm starts a round,
/// quit and the close signal end the session, all else is ignored.
pub open spec fn title_transition(e: InputEvent) -> TitleStep {
    match e {
        InputEvent::Closed => TitleStep::Quit,
        InputEvent::KeyPressed(Key::Return) => TitleStep::StartRound,
        InputEvent::KeyPressed(Key::Q) => TitleStep::Quit,
        _ => TitleStep::Stay,
    }
}

/// The step the playing state takes on one event: quit abandons the
/// round, the close signal ends the session, all else keeps playing.
pub open spec fn play_transition(e: InputEvent) -> PlayStep {
    match e {
        InputEvent::Closed => PlayStep::Quit,
        InputEvent::KeyPressed(Key::Q) => PlayStep::Abandon,
        _ => PlayStep::Continue,
    }
}

/// The movement flags after one event: a pressed arrow sets its flag, a
/// released one clears it, any other event leaves them alone.
pub open spec fn flags_after(f: MoveFlags, e: InputEvent) -> MoveFlags {
    match e {
        InputEvent::KeyPressed(Key::Left) => MoveFlags { left: true, ..f },
        InputEvent::KeyReleased(Key::Left) => MoveFlags { left: false, ..f },
        InputEvent::KeyPressed(Key::Down) => MoveFlags { down: true, ..f },
        InputEvent::KeyReleased(Key::Down) => MoveFlags { down: false, ..f },
        InputEvent::KeyPressed(Key::Up) => MoveFlags { up: true, ..f },
        InputEvent::KeyReleased(Key::Up) => MoveFlags { up: false, ..f },
        InputEvent::KeyPressed(Key::Right) => MoveFlags { right: true, ..f },
        InputEvent::KeyReleased(Key::Right) => MoveFlags { right: false, ..f },
        _ => f,
    }
}

/// The frame counter after one frame: it counts up and wraps to zero
/// when it reaches FRAMES_PER_BG.
pub open spec fn frame_after(frame: u32) -> u32 {
    if frame + 1 == FRAMES_PER_BG {
        0
    } else {
        (frame + 1) as u32
    }
}

/// The background index after one frame: it advances by one, modulo the
/// number of backgrounds, exactly when the frame counter wraps.
pub open spec fn bg_after(frame: u32, bg: usize, num_bgs: usize) -> usize {
    if frame + 1 == FRAMES_PER_BG {
        ((bg + 1) % (num_bgs as int)) as usize
    } else {
        bg
    }
}

/// The high score after absorbing one committed score.
pub open spec fn commit_high(high: u32, score: u32) -> u32 {
    if score > high {
        score
    } else {
        high
    }
}

/// Decide one title-screen event.
pub fn title_step(e: InputEvent) -> (r: TitleStep)
    ensures
        r == title_transition(e),
{
    match e {
        InputEvent::Closed => TitleStep::Quit,
        InputEvent::KeyPressed(Key::Return) => TitleStep::StartRound,
        InputEvent::KeyPressed(Key::Q) => TitleStep::Quit,
        _ => TitleStep::Stay,
    }
}

/// The ephemeral state of one round: it is created when a round is
/// armed and thrown away when the round ends.
#[derive(Clone, Copy, Debug, PartialEq, Eq, Structural)]
pub struct Round {
    /// Pickups scored so far in this round.
    pub score: u32,
    /// Frames since the background last advanced.
    pub frame: u32,
    /// Which background is showing.
    pub bg: usize,
    /// How many backgrounds there are to cycle through.
    pub num_bgs: usize,
    /// Pressed-state of the four movement keys.
    pub flags: MoveFlags,
}

impl Round {
    /// The frame counter has not reached a wrap, and the background
    /// index points at one of the (at least one) backgrounds.
    pub open spec fn wf(self) -> bool {
        self.frame < FRAMES_PER_BG && self.bg < self.num_bgs
    }

    /// Decide one event while playing: update the movement flags and
    /// say whether the round goes on, is abandoned, or ends the session.
    pub fn handle_event(&mut self, e: InputEvent) -> (r: PlayStep)
        ensures
            r == play_transition(e),
            final(self).flags == flags_after(old(self).flags, e),
            final(self).score == old(self).score,
            final(self).frame == old(self).frame,
            final(self).bg == old(self).bg,
            final(self).num_bgs == old(self).num_bgs,
    {
        match e {
            InputEvent::Closed => PlayStep::Quit,
            InputEvent::KeyPressed(Key::Q) => PlayStep::Abandon,
            InputEvent::KeyPressed(Key::Left) => {
                self.flags.left = true;
                PlayStep::Continue
            },
            InputEvent::KeyReleased(Key::Left) => {
                self.flags.left = false;
                PlayStep::Continue
            },
            InputEvent::KeyPressed(Key::Down) => {
                self.flags.down = true;
                PlayStep::Continue
            },
            InputEvent::KeyReleased(Key::Down) => {
                self.flags.down = false;
                PlayStep::Continue
            },
            InputEvent::KeyPressed(Key::Up) => {
                self.flags.up = true;
                PlayStep::Continue
            },
            InputEvent::KeyReleased(Key::Up) => {
                self.flags.up = false;
                PlayStep::Continue
            },
            InputEvent::KeyPressed(Key::Right) => {
                self.flags.right = true;
                PlayStep::Continue
            },
            InputEvent::KeyReleased(Key::Right) => {
                self.flags.right = false;
                PlayStep::Continue
            },
            _ => PlayStep::Continue,
        }
    }
}

/// The whole-session aggregate: it lives for the whole program run and
/// carries the high and last score from round to round.
pub struct Game {
    /// The player's sprite anchor.
    pub player: Position,
    /// The item's sprite anchor.
    pub item: Position,
    /// Best committed round score of the session.
    pub high_score: u32,
    /// Most recently committed round score.
    pub last_score: u32,
    /// The session's one generator; never re-seeded.
    pub gen: random::Xorshift128Plus,
}

impl Game {
    /// Both anchors lie inside the playable rectangle.
    pub open spec fn wf(self) -> bool {
        self.player.wf() && self.item.wf()
    }

    /// A fresh session seeded with the two given words: the player at
    /// the field's centre, no item placed yet, both scores zero.
    pub fn new(s1: u64, s2: u64) -> (g: Game)
        requires
            s1 != 0 || s2 != 0,
        ensures
            g.player == (Position { x: START_X, y: START_Y }),
            g.item == (Position { x: 0, y: 0 }),
            g.high_score == 0,
            g.last_score == 0,
            gen_state(g.gen) == (s1, s2),
            g.wf(),
    {
        Game {
            player: Position { x: START_X, y: START_Y },
            item: Position { x: 0, y: 0 },
            high_score: 0,
            last_score: 0,
            gen: seeded_generator(s1, s2),
        }
    }

    /// Arm a fresh round: score, frame counter and background index at
    /// zero, all movement flags cleared, and the item re-placed from the
    /// stream. The scores and the player stay as they were.
    pub fn start_round(&mut self, num_bgs: usize) -> (r: Round)
        requires
            old(self).wf(),
            num_bgs >= 1,
        ensures
            r == (Round {
                score: 0,
                frame: 0,
                bg: 0,
                num_bgs: num_bgs,
                flags: MoveFlags::clear(),
            }),
            r.wf(),
            final(self).item == placed(gen_state(old(self).gen)),
            gen_state(final(self).gen) == xs_next(xs_next(gen_state(old(self).gen))),
            final(self).player == old(self).player,
            final(self).high_score == old(self).high_score,
            final(self).last_score == old(self).last_score,
            final(self).wf(),
    {
        self.item = new_position(&mut self.gen);
        Round {
            score: 0,
            frame: 0,
            bg: 0,
            num_bgs: num_bgs,
            flags: MoveFlags { left: false, down: false, up: false, right: false },
        }
    }

    /// One frame of the playing state: move the player under the flags,
    /// score and re-place the item if it is picked up, and advance the
    /// background cycle. Scores of past rounds are untouched.
    pub fn frame_update(&mut self, round: &mut Round)
        requires
            old(self).wf(),
            old(round).wf(),
            old(round).score < u32::MAX,
        ensures
            final(self).player == moved(old(self).player, old(round).flags),
            final(self).high_score == old(self).high_score,
            final(self).last_score == old(self).last_score,
            pickup(moved(old(self).player, old(round).flags), old(self).item) ==> {
                &&& final(round).score == old(round).score + 1
                &&& final(self).item == placed(gen_state(old(self).gen))
                &&& gen_state(final(self).gen) == xs_next(xs_next(gen_state(old(self).gen)))
            },
            !pickup(moved(old(self).player, old(round).flags), old(self).item) ==> {
                &&& final(round).score == old(round).score
                &&& final(self).item == old(self).item
                &&& final(self).gen == old(self).gen
            },
            final(round).flags == old(round).flags,
            final(round).num_bgs == old(round).num_bgs,
            final(round).frame == frame_after(old(round).frame),
            final(round).bg == bg_after(old(round).frame, old(round).bg, old(round).num_bgs),
            final(self).wf(),
            final(round).wf(),
    {
        self.player = move_step(self.player, round.flags);
        if eaten(self.player, self.item) {
            round.score = round.score + 1;
            self.item = new_position(&mut self.gen);
        }
        round.frame = round.frame + 1;
        if round.frame % FRAMES_PER_BG == 0 {
            round.frame = 0;
            round.bg = (round.bg + 1) % round.num_bgs;
        }
    }

    /// Commit a round that ran out its clock: its score becomes the last
    /// score, and the high score absorbs it if it is higher. Nothing
    /// else of the session moves.
    pub fn commit_round(&mut self, score: u32)
        ensures
            final(self).last_score == score,
            final(self).high_score == commit_high(old(self).high_score, score),
            final(self).high_score >= final(self).last_score,
            final(self).high_score >= old(self).high_score,
            final(self).player == old(self).player,
            final(self).item == old(self).item,
            final(self).gen == old(self).gen,
    {
        self.last_score = score;
        if score > self.high_score {
            self.high_score = score;
        }
    }
}

/// Whether a round's clock has run out: true exactly when the elapsed
/// time strictly exceeds the budget.
pub fn clock_expired(elapsed_ms: u64) -> (r: bool)
    ensures
        r == (elapsed_ms > ROUND_MS),
{
    elapsed_ms > ROUND_MS
}

/// One seed word built from four entropy bytes, landing at bit offsets
/// 48, 32, 16 and 0.
pub open spec fn seed_word(b0: u8, b1: u8, b2: u8, b3: u8) -> u64 {
    ((b0 as u64) << 48) | ((b1 as u64) << 32) | ((b2 as u64) << 16) | (b3 as u64)
}

/// Split 16 raw entropy bytes into the two generator seed words. Only
/// the first eight of the sixteen bytes are read, four per word.
pub fn seeds_from_bytes(bits: &[u8; 16]) -> (r: (u64, u64))
    ensures
        r.0 == seed_word(bits[0], bits[1], bits[2], bits[3]),
        r.1 == seed_word(bits[4], bits[5], bits[6], bits[7]),
{
    let s1: u64 = ((bits[0] as u64) << 48) | ((bits[1] as u64) << 32) | ((bits[2] as u64) << 16)
        | (bits[3] as u64);
    let s2: u64 = ((bits[4] as u64) << 48) | ((bits[5] as u64) << 32) | ((bits[6] as u64) << 16)
        | (bits[7] as u64);
    (s1, s2)
}

} // verus!
