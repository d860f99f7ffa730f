//! The frame loop's decisions: what one frame does with the grid, given the two buttons and a
//! fresh seed. The loop itself, with its display, timer and buttons, belongs to the program;
//! here is the function it calls once per frame, and what holds of any run of frames.

use crate::grid::{all_dead, inverted, stepped, Board, Grid};
use crate::random::random_board;
use vstd::prelude::*;

verus! {

/// How long one frame lasts, in milliseconds.
pub const FRAMETIME_MS: u32 = 100;

/// How many frames' worth of time a finished grid is held before the next one starts.
pub const RESTART_FRAMES_COUNT: u32 = 5;

/// How many frames have to pass after button B has inverted the grid before it can again.
pub const BUTTON_DELAY_FRAMES_COUNT: u32 = 5;

/// The seed of the first grid after power-up.
pub const FIRST_ROUND_SEED: u128 = 1;

/// What the loop samples at the start of a frame.
#[derive(Clone, Copy, Debug, PartialEq, Eq)]
pub struct Inputs {
    /// A fresh 128-bit seed; used only if this frame reseeds.
    pub seed: u128,
    /// Button A, reseed, is down.
    pub button_a: bool,
    /// Button B, invert, is down.
    pub button_b: bool,
}

/// Which of its two courses a frame takes.
#[derive(Clone, Copy, Debug, PartialEq, Eq)]
pub enum Phase {
    /// The grid is shown and advanced; the buttons are heeded.
    Running,
    /// The simulation has finished: the grid is held for a while and replaced by a fresh one.
    JustFinished,
}

/// What the program has to do for a frame, once the frame has been decided.
#[derive(Clone, Copy, Debug, PartialEq, Eq)]
pub enum Action {
    /// Wait `hold_ms` milliseconds and go on to the next frame; nothing is drawn.
    Restart { hold_ms: u32 },
    /// Show `grid` for `frame_ms` milliseconds, then wait `frame_ms` more. `reseeded` and
    /// `inverted` tell which of the two buttons took effect in this frame.
    Show { grid: Grid, frame_ms: u32, reseeded: bool, inverted: bool },
}

/// The loop's state between two frames.
#[derive(Clone, Copy, Debug, PartialEq, Eq)]
pub struct Control {
    /// The generation that the next frame starts from.
    pub grid: Grid,
    /// The frames during which a press of button B is still ignored.
    pub button_b_delay: u32,
}

/// The mathematical picture of a [`Control`].
pub struct ControlModel {
    pub board: Board,
    pub delay: u32,
}

impl View for Control {
    type V = ControlModel;

    open spec fn view(&self) -> ControlModel {
        ControlModel { board: self.grid@, delay: self.button_b_delay }
    }
}

/// The course of a frame that starts from `board`: the simulation has finished when no cell
/// is left Alive.
pub open spec fn phase_of(board: Board) -> Phase {
    if all_dead(board) {
        Phase::JustFinished
    } else {
        Phase::Running
    }
}

/// Whether button B inverts the grid in a Running frame: it is down, and no cooldown runs.
pub open spec fn inverts(delay: u32, inputs: Inputs) -> bool {
    inputs.button_b && delay == 0
}

/// The board that a Running frame shows: a fresh one if button A is down, else the one it
/// started from; inverted if button B takes effect.
pub open spec fn shown_board(from: ControlModel, inputs: Inputs) -> Board {
    let base = if inputs.button_a {
        random_board(inputs.seed)
    } else {
        from.board
    };
    if inverts(from.delay, inputs) {
        inverted(base)
    } else {
        base
    }
}

/// The cooldown that a Running frame leaves: an invert sets it to
/// `BUTTON_DELAY_FRAMES_COUNT + 1`, and then every Running frame takes one off, down to 0.
/// Button A has no part in it: a reseed neither waits for the cooldown nor restarts it.
pub open spec fn delay_after(delay: u32, inputs: Inputs) -> u32 {
    let armed = if inverts(delay, inputs) {
        BUTTON_DELAY_FRAMES_COUNT + 1
    } else {
        delay as int
    };
    if armed == 0 {
        0
    } else {
        (armed - 1) as u32
    }
}

/// The state that a frame in `phase` leaves. A finished grid is replaced by the one that
/// `inputs.seed` stands for, and the cooldown is not touched. A running one is replaced by the
/// generation after the board shown, and the cooldown moves as `delay_after` says.
pub open spec fn after_frame(from: ControlModel, phase: Phase, inputs: Inputs) -> ControlModel {
    match phase {
        Phase::JustFinished => ControlModel { board: random_board(inputs.seed), delay: from.delay },
        Phase::Running => ControlModel {
            board: stepped(shown_board(from, inputs)),
            delay: delay_after(from.delay, inputs),
        },
    }
}

/// Whether `action` is what a frame in `phase` asks of the program: to hold a finished grid
/// for `RESTART_FRAMES_COUNT` frames' time, or to show a running one for a frame's time.
pub open spec fn asked_of_program(from: ControlModel, phase: Phase, inputs: Inputs, action: Action) -> bool {
    match phase {
        Phase::JustFinished => action == (Action::Restart {
            hold_ms: (RESTART_FRAMES_COUNT * FRAMETIME_MS) as u32,
        }),
        Phase::Running => {
            &&& action matches Action::Show { grid, frame_ms, reseeded, inverted }
            &&& grid@ == shown_board(from, inputs)
            &&& frame_ms == FRAMETIME_MS
            &&& reseeded == inputs.button_a
            &&& inverted == inverts(from.delay, inputs)
        },
    }
}

impl Control {
    /// The state at power-up: the grid of `FIRST_ROUND_SEED`, and no cooldown.
    pub fn new() -> (start: Control)
        ensures
            start@.board == random_board(FIRST_ROUND_SEED),
            start@.delay == 0,
    {
        Control { grid: Grid::randomize(FIRST_ROUND_SEED), button_b_delay: 0 }
    }

    /// Which course the next frame takes: the simulation has finished when no cell is Alive.
    pub fn phase(&self) -> (phase: Phase)
        ensures
            phase == phase_of(self@.board),
    {
        if self.grid.is_done() {
            Phase::JustFinished
        } else {
            Phase::Running
        }
    }

    /// Decides one frame, whose course the caller has settled, and moves the state past it.
    /// A program with another idea of when a simulation has finished than [`Control::phase`]
    /// passes its own verdict here; nothing else in the loop depends on that rule.
    ///
    /// A finished grid is held for `RESTART_FRAMES_COUNT` frames' time and reseeded; the
    /// buttons are not looked at and the cooldown stands still. Otherwise button A reseeds,
    /// in every frame in which it is down; button B inverts unless a cooldown runs, and starts
    /// one; the cooldown loses a frame; and the grid that results is shown and then advanced.
    pub fn frame_in_phase(&mut self, phase: Phase, inputs: Inputs) -> (action: Action)
        ensures
            final(self)@ == after_frame(old(self)@, phase, inputs),
            asked_of_program(old(self)@, phase, inputs, action),
    {
        match phase {
            Phase::JustFinished => {
                self.grid = Grid::randomize(inputs.seed);
                Action::Restart { hold_ms: RESTART_FRAMES_COUNT * FRAMETIME_MS }
            },
            Phase::Running => {
                let mut inverted = false;
                if inputs.button_a {
                    self.grid = Grid::randomize(inputs.seed);
                }
                if inputs.button_b {
                    if self.button_b_delay == 0 {
                        self.grid = self.grid.invert();
                        inverted = true;
                        self.button_b_delay = BUTTON_DELAY_FRAMES_COUNT + 1;
                    }
                }
                self.button_b_delay = self.button_b_delay.saturating_sub(1);
                let grid = self.grid;
                self.grid = grid.step();
                Action::Show { grid, frame_ms: FRAMETIME_MS, reseeded: inputs.button_a, inverted }
            },
        }
    }

    /// Decides one frame and moves the state past it: a frame in the phase that
    /// [`Control::phase`] finds.
    pub fn frame(&mut self, inputs: Inputs) -> (action: Action)
        ensures
            final(self)@ == after_frame(old(self)@, phase_of(old(self)@.board), inputs),
            asked_of_program(old(self)@, phase_of(old(self)@.board), inputs, action),
    {
        let phase = self.phase();
        self.frame_in_phase(phase, inputs)
    }
}

/// The state after `frames`, run in order from `from`. A frame is given by its phase and its
/// inputs.
pub open spec fn after_frames(from: ControlModel, frames: Seq<(Phase, Inputs)>) -> ControlModel
    decreases frames.len(),
{
    if frames.len() == 0 {
        from
    } else {
        let (phase, inputs) = frames[0];
        after_frames(after_frame(from, phase, inputs), frames.drop_first())
    }
}

/// In how many of `frames`, run in order from `from`, button B inverts the grid.
pub open spec fn inverts_over(from: ControlModel, frames: Seq<(Phase, Inputs)>) -> nat
    decreases frames.len(),
{
    if frames.len() == 0 {
        0
    } else {
        let (phase, inputs) = frames[0];
        let first: nat = if phase == Phase::Running && inverts(from.delay, inputs) {
            1
        } else {
            0
        };
        first + inverts_over(after_frame(from, phase, inputs), frames.drop_first())
    }
}

/// While a cooldown runs, button B does nothing: a cooldown of `n` frames covers the next `n`
/// frames, however the buttons are worked in them and whatever their phases.
pub proof fn lemma_cooldown_silences_button_b(from: ControlModel, frames: Seq<(Phase, Inputs)>)
    requires
        frames.len() <= from.delay,
    ensures
        inverts_over(from, frames) == 0,
    decreases frames.len(),
{
    if frames.len() > 0 {
        let (phase, inputs) = frames[0];
        lemma_cooldown_silences_button_b(after_frame(from, phase, inputs), frames.drop_first());
    }
}

/// Debounce. In any `BUTTON_DELAY_FRAMES_COUNT + 1` frames in a row button B inverts the grid
/// at most once, whether it is held down throughout or bounces, from any state and whatever
/// rule gives the frames their phases.
pub proof fn lemma_one_invert_per_window(from: ControlModel, frames: Seq<(Phase, Inputs)>)
    requires
        frames.len() <= BUTTON_DELAY_FRAMES_COUNT + 1,
    ensures
        inverts_over(from, frames) <= 1,
    decreases frames.len(),
{
    if frames.len() > 0 {
        let (phase, inputs) = frames[0];
        let next = after_frame(from, phase, inputs);
        if phase == Phase::Running && inverts(from.delay, inputs) {
            lemma_cooldown_silences_button_b(next, frames.drop_first());
        } else {
            lemma_one_invert_per_window(next, frames.drop_first());
        }
    }
}

/// A cooldown runs out. While it lasts, every Running frame takes one frame off it, whatever
/// the buttons do; once as many Running frames have passed as it counted, it is over, and a
/// press of button B in the next Running frame inverts the grid again.
pub proof fn lemma_cooldown_runs_out(from: ControlModel, frames: Seq<(Phase, Inputs)>, press: Inputs)
    requires
        frames.len() <= from.delay,
        forall|i: int| 0 <= i < frames.len() ==> (#[trigger] frames[i]).0 == Phase::Running,
        press.button_b,
    ensures
        after_frames(from, frames).delay == from.delay - frames.len(),
        frames.len() == from.delay ==> inverts(after_frames(from, frames).delay, press),
    decreases frames.len(),
{
    if frames.len() > 0 {
        let (phase, inputs) = frames[0];
        let rest = frames.drop_first();
        assert forall|i: int| 0 <= i < rest.len() implies (#[trigger] rest[i]).0 == Phase::Running by {
            assert(rest[i] == frames[i + 1]);
        }
        lemma_cooldown_runs_out(after_frame(from, phase, inputs), rest, press);
    }
}

/// Button A knows no cooldown. In every Running frame in which it is down the board shown is
/// the one that the frame's seed stands for, inverted if button B takes effect too: nothing
/// of the board before is left, and no cooldown holds the reseed back.
pub proof fn lemma_button_a_always_reseeds(from: ControlModel, inputs: Inputs)
    requires
        inputs.button_a,
    ensures
        shown_board(from, inputs) == if inverts(from.delay, inputs) {
            inverted(random_board(inputs.seed))
        } else {
            random_board(inputs.seed)
        },
{
}

} // verus!
