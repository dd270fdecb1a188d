//! The cursor's blinking and placement, frame by frame.
//!
//! Times are milliseconds on a clock that never runs backwards, as the caller
//! reads them; a wake-up that would lie beyond the largest time is asked for at
//! the largest time.

use crate::editor::{Cursor, CursorShape};
use crate::redraw_scheduler::{RedrawScheduler, SchedulerState};
use crate::settings::Settings;
use vstd::prelude::*;

verus! {

/// For how many frames a move onto the command line is held back.
pub const COMMAND_LINE_DELAY_FRAMES: u64 = 5;

#[derive(Clone, Copy, Debug, PartialEq, Eq, Structural)]
pub enum BlinkState {
    Waiting,
    On,
    Off,
}

impl BlinkState {
    /// The phase that follows this one.
    pub open spec fn next(self) -> BlinkState {
        match self {
            BlinkState::Waiting => BlinkState::On,
            BlinkState::On => BlinkState::Off,
            BlinkState::Off => BlinkState::On,
        }
    }

    /// The phase in which a cursor starts that is seen for the first time: a
    /// cursor that waits before it blinks starts waiting, any other starts
    /// shown.
    pub open spec fn first(cursor: Cursor) -> BlinkState {
        match cursor.blinkwait {
            Some(wait) if wait != 0 => BlinkState::Waiting,
            _ => BlinkState::On,
        }
    }

    pub fn next_state(&self) -> (next: BlinkState)
        ensures
            next == self.next(),
    {
        match self {
            BlinkState::Waiting => BlinkState::On,
            BlinkState::On => BlinkState::Off,
            BlinkState::Off => BlinkState::On,
        }
    }
}

/// The sum of a time and a delay, held to the largest time there is.
pub open spec fn time_after(time: nat, delay: nat) -> nat {
    if time + delay <= u64::MAX {
        time + delay
    } else {
        u64::MAX as nat
    }
}

/// What a blink status holds, as plain values.
pub struct BlinkView {
    pub state: BlinkState,
    /// When the phase last changed.
    pub last_transition: nat,
    /// The cursor seen at the last update.
    pub previous_cursor: Option<Cursor>,
}

impl BlinkView {
    /// The status once `cursor` was looked at: a cursor that differs from the
    /// one seen before starts over at `now`.
    pub open spec fn noticed(self, cursor: Cursor, now: nat) -> BlinkView {
        if self.previous_cursor == Some(cursor) {
            self
        } else {
            BlinkView {
                state: BlinkState::first(cursor),
                last_transition: now,
                previous_cursor: Some(cursor),
            }
        }
    }

    /// How long the current phase lasts for `cursor`, if it ends at all.
    pub open spec fn delay(self, cursor: Cursor) -> Option<u64> {
        match self.state {
            BlinkState::Waiting => cursor.blinkwait,
            BlinkState::Off => cursor.blinkoff,
            BlinkState::On => cursor.blinkon,
        }
    }

    /// Whether the current phase has run its time at `now`.
    pub open spec fn run_out(self, cursor: Cursor, now: nat) -> bool {
        self.delay(cursor) matches Some(delay) && delay > 0 && now >= self.last_transition + delay
    }

    /// The status with the phase advanced at `now` if it has run its time.
    pub open spec fn advanced(self, cursor: Cursor, now: nat) -> BlinkView {
        if self.run_out(cursor, now) {
            BlinkView {
                state: self.state.next(),
                last_transition: now,
                previous_cursor: self.previous_cursor,
            }
        } else {
            self
        }
    }

    /// The status after an update for `cursor` at `now`.
    pub open spec fn updated(self, cursor: Cursor, now: nat) -> BlinkView {
        if cursor.never_blinks() {
            self.noticed(cursor, now)
        } else {
            self.noticed(cursor, now).advanced(cursor, now)
        }
    }

    /// Whether the cursor is shown after an update for `cursor` at `now`.
    pub open spec fn shown(self, cursor: Cursor, now: nat) -> bool {
        cursor.never_blinks() || self.updated(cursor, now).state == BlinkState::On
    }

    /// The wake-up that an update for `cursor` at `now` asks for: the time of
    /// the last change of phase, after the update, plus the delay of the phase
    /// in which the update found the cursor. A cursor that never blinks, or
    /// whose phase has no end, asks for none.
    pub open spec fn wake_up(self, cursor: Cursor, now: nat) -> Option<nat> {
        if cursor.never_blinks() {
            None
        } else {
            match self.noticed(cursor, now).delay(cursor) {
                Some(delay) => Some(
                    time_after(self.updated(cursor, now).last_transition, delay as nat),
                ),
                None => None,
            }
        }
    }
}

/// The scheduler after the wake-up, if any, was asked for.
pub open spec fn woken(scheduler: SchedulerState, wake_up: Option<nat>) -> SchedulerState {
    match wake_up {
        Some(time) => scheduler.scheduled(time),
        None => scheduler,
    }
}

pub struct BlinkStatus {
    state: BlinkState,
    last_transition: u64,
    previous_cursor: Option<Cursor>,
}

impl View for BlinkStatus {
    type V = BlinkView;

    closed spec fn view(&self) -> BlinkView {
        BlinkView {
            state: self.state,
            last_transition: self.last_transition as nat,
            previous_cursor: self.previous_cursor,
        }
    }
}

impl BlinkStatus {
    /// The status before any cursor was seen.
    pub fn new(now: u64) -> (status: BlinkStatus)
        ensures
            status@ == (BlinkView {
                state: BlinkState::Waiting,
                last_transition: now as nat,
                previous_cursor: None,
            }),
    {
        BlinkStatus { state: BlinkState::Waiting, last_transition: now, previous_cursor: None }
    }

    /// Brings the blinking up to `now` for the cursor of this frame, asks the
    /// scheduler for the wake-up at which the phase will have to change next,
    /// and says whether the cursor is shown.
    pub fn update_status(
        &mut self,
        new_cursor: &Cursor,
        now: u64,
        scheduler: &mut RedrawScheduler,
    ) -> (visible: bool)
        ensures
            final(self)@ == old(self)@.updated(*new_cursor, now as nat),
            visible == old(self)@.shown(*new_cursor, now as nat),
            final(scheduler)@ == woken(
                old(scheduler)@,
                old(self)@.wake_up(*new_cursor, now as nat),
            ),
            new_cursor.never_blinks() ==> visible,
    {
        let changed = match &self.previous_cursor {
            Some(previous) => !new_cursor.same_as(previous),
            None => true,
        };
        if changed {
            self.previous_cursor = Some(*new_cursor);
            self.last_transition = now;
            self.state = match new_cursor.blinkwait {
                None => BlinkState::On,
                Some(wait) => if wait == 0 {
                    BlinkState::On
                } else {
                    BlinkState::Waiting
                },
            };
        }
        if is_zero(new_cursor.blinkwait) || is_zero(new_cursor.blinkoff) || is_zero(
            new_cursor.blinkon,
        ) {
            return true;
        }
        let blink_delay = match self.state {
            BlinkState::Waiting => new_cursor.blinkwait,
            BlinkState::Off => new_cursor.blinkoff,
            BlinkState::On => new_cursor.blinkon,
        };
        match blink_delay {
            Some(delay) => {
                if delay > 0 && now >= self.last_transition && now - self.last_transition
                    >= delay {
                    self.state = self.state.next_state();
                    self.last_transition = now;
                }
                let scheduled_frame = self.last_transition.saturating_add(delay);
                scheduler.schedule(scheduled_frame);
            },
            None => {},
        }
        match self.state {
            BlinkState::On => true,
            _ => false,
        }
    }
}

/// Whether `row` is the last row of a grid of `grid_height` rows, the row of
/// the command line.
pub open spec fn on_command_line(row: u64, grid_height: u64) -> bool {
    row + 1 == grid_height
}

/// What a cursor renderer holds, as plain values.
pub struct RendererView {
    /// Where the cursor was drawn last: column and row.
    pub previous_position: (u64, u64),
    /// For how many frames in a row a move onto the command line has been held
    /// back.
    pub command_line_delay: nat,
    pub blink: BlinkView,
}

impl RendererView {
    /// Whether a move to `target` is held back for this frame: the target lies
    /// on the command line, the cursor was drawn on another row, and the move
    /// has not yet been held back for all but one of the frames it is delayed.
    pub open spec fn held_back(self, target: (u64, u64), grid_height: u64) -> bool {
        &&& on_command_line(target.1, grid_height)
        &&& self.previous_position.1 != target.1
        &&& self.command_line_delay + 1 < COMMAND_LINE_DELAY_FRAMES
    }

    /// The renderer after it chose where to draw a cursor that stands at
    /// `target`.
    pub open spec fn placed(self, target: (u64, u64), grid_height: u64) -> RendererView {
        if self.held_back(target, grid_height) {
            RendererView {
                previous_position: self.previous_position,
                command_line_delay: self.command_line_delay + 1,
                blink: self.blink,
            }
        } else {
            RendererView { previous_position: target, command_line_delay: 0, blink: self.blink }
        }
    }

    /// The renderer after `frames` frames in a row chose where to draw a
    /// cursor that stands at `target`.
    pub open spec fn placed_repeatedly(
        self,
        target: (u64, u64),
        grid_height: u64,
        frames: nat,
    ) -> RendererView
        decreases frames,
    {
        if frames == 0 {
            self
        } else {
            self.placed_repeatedly(target, grid_height, (frames - 1) as nat).placed(
                target,
                grid_height,
            )
        }
    }

    /// The renderer after the frame for `cursor` at `now`.
    pub open spec fn drawn(self, cursor: Cursor, grid_height: u64, now: nat) -> RendererView {
        RendererView {
            previous_position: self.placed(cursor.position, grid_height).previous_position,
            command_line_delay: self.placed(cursor.position, grid_height).command_line_delay,
            blink: self.blink.updated(cursor, now),
        }
    }
}

/// How many cells wide the cursor is drawn: two for a block on a character
/// that takes two cells, one otherwise. `following_cell` is the text of the
/// cell to the right, if the grid has text there; a character of double width
/// leaves that cell empty.
pub open spec fn span(cursor: Cursor, following_cell: Option<Seq<char>>) -> nat {
    let double = match following_cell {
        Some(text) => text.len() == 0,
        None => false,
    };
    if double && cursor.shape == CursorShape::Block {
        2
    } else {
        1
    }
}

/// What the render loop is to paint of the cursor in one frame.
#[derive(Clone, Copy, Debug, PartialEq, Eq)]
pub struct CursorFrame {
    /// The cell at which the cursor is drawn: column and row.
    pub position: (u64, u64),
    /// Whether the cursor is painted at all: it is enabled and its blinking
    /// shows it.
    pub render: bool,
}

pub struct CursorRenderer {
    previous_position: (u64, u64),
    command_line_delay: u64,
    blink_status: BlinkStatus,
}

impl View for CursorRenderer {
    type V = RendererView;

    closed spec fn view(&self) -> RendererView {
        RendererView {
            previous_position: self.previous_position,
            command_line_delay: self.command_line_delay as nat,
            blink: self.blink_status@,
        }
    }
}

impl CursorRenderer {
    /// A renderer that has drawn nothing yet.
    pub fn new(now: u64) -> (renderer: CursorRenderer)
        ensures
            renderer@ == (RendererView {
                previous_position: (0, 0),
                command_line_delay: 0,
                blink: BlinkView {
                    state: BlinkState::Waiting,
                    last_transition: now as nat,
                    previous_cursor: None,
                },
            }),
    {
        CursorRenderer {
            previous_position: (0, 0),
            command_line_delay: 0,
            blink_status: BlinkStatus::new(now),
        }
    }

    /// Decides what is painted of the cursor in the frame at `now`: brings the
    /// blinking up to date, which may ask the scheduler for a wake-up, and
    /// chooses the cell. A move onto the command line, the last row of the
    /// grid, is held back: the cursor stays where it was drawn until the move
    /// has been seen for `COMMAND_LINE_DELAY_FRAMES` frames in a row.
    pub fn draw(
        &mut self,
        cursor: &Cursor,
        grid_height: u64,
        now: u64,
        scheduler: &mut RedrawScheduler,
    ) -> (frame: CursorFrame)
        ensures
            final(self)@ == old(self)@.drawn(*cursor, grid_height, now as nat),
            frame.position == final(self)@.previous_position,
            frame.render == (cursor.enabled && old(self)@.blink.shown(*cursor, now as nat)),
            final(scheduler)@ == woken(
                old(scheduler)@,
                old(self)@.blink.wake_up(*cursor, now as nat),
            ),
    {
        let render = self.blink_status.update_status(cursor, now, scheduler);
        let grid_y = cursor.position.1;
        let previous_y = self.previous_position.1;
        if grid_height > 0 && grid_y == grid_height - 1 && previous_y != grid_y {
            if self.command_line_delay < COMMAND_LINE_DELAY_FRAMES - 1 {
                self.command_line_delay = self.command_line_delay + 1;
            } else {
                self.command_line_delay = 0;
                self.previous_position = cursor.position;
            }
        } else {
            self.command_line_delay = 0;
            self.previous_position = cursor.position;
        }
        CursorFrame { position: self.previous_position, render: cursor.enabled && render }
    }

    /// Grants the frames that an animation needs: where a corner of the cursor
    /// is still moving, or a move onto the command line is being held back,
    /// the scheduler is told to draw the next frames unconditionally.
    pub fn keep_animating(
        &self,
        animating: bool,
        scheduler: &mut RedrawScheduler,
        settings: &Settings,
    ) -> (queued: bool)
        ensures
            queued == (animating || self@.command_line_delay != 0),
            final(scheduler)@ == if queued {
                old(scheduler)@.queued(settings.buffer_frames())
            } else {
                old(scheduler)@
            },
    {
        if animating || self.command_line_delay != 0 {
            scheduler.queue_next_frame(settings);
            true
        } else {
            false
        }
    }

    /// How many cells wide the cursor is drawn.
    pub fn cell_span(cursor: &Cursor, following_cell: Option<&str>) -> (cells: u64)
        ensures
            cells == span(
                *cursor,
                match following_cell {
                    Some(text) => Some(text@),
                    None => None,
                },
            ),
    {
        let is_double = match following_cell {
            Some(text) => text.is_empty(),
            None => false,
        };
        match (is_double, cursor.shape) {
            (true, CursorShape::Block) => 2,
            _ => 1,
        }
    }
}

/// A move onto the command line is held back for all but the last of the
/// frames it is delayed: while the cursor keeps standing at a cell of the
/// command line, on another row than the one it was drawn on, the drawn cell
/// stays where it was for the first `COMMAND_LINE_DELAY_FRAMES - 1` frames and
/// is the cursor's cell at the frame after them.
pub proof fn lemma_command_line_move_is_delayed(
    renderer: RendererView,
    target: (u64, u64),
    grid_height: u64,
    frames: nat,
)
    requires
        renderer.command_line_delay == 0,
        on_command_line(target.1, grid_height),
        renderer.previous_position.1 != target.1,
        frames <= COMMAND_LINE_DELAY_FRAMES,
    ensures
        frames < COMMAND_LINE_DELAY_FRAMES ==> renderer.placed_repeatedly(
            target,
            grid_height,
            frames,
        ).previous_position == renderer.previous_position && renderer.placed_repeatedly(
            target,
            grid_height,
            frames,
        ).command_line_delay == frames,
        frames == COMMAND_LINE_DELAY_FRAMES ==> renderer.placed_repeatedly(
            target,
            grid_height,
            frames,
        ).previous_position == target && renderer.placed_repeatedly(
            target,
            grid_height,
            frames,
        ).command_line_delay == 0,
    decreases frames,
{
    if frames > 0 {
        lemma_command_line_move_is_delayed(renderer, target, grid_height, (frames - 1) as nat);
    }
}

/// Whether a delay is given as zero.
fn is_zero(delay: Option<u64>) -> (zero: bool)
    ensures
        zero == (delay == Some(0u64)),
{
    match delay {
        Some(delay) => delay == 0,
        None => false,
    }
}

} // verus!
