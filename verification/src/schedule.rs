//! The event loop's decisions: what each event does to the clock and the
//! display targets, and what the program is to do next.
//!
//! Within one tick the order is fixed: the clock advances when the tick
//! is due, the uniform block is staged when a redraw is asked for, and
//! only then are the draws handed out.

use vstd::prelude::*;
use crate::playback::{Pipeline, UniformWrite};
use crate::surfaces::{
    draw_of,
    has_window,
    with_resized,
    without_window,
    DrawCall,
    PipelineWindow,
    PipelineWindows,
    swap_chain_for,
};

verus! {

/// What the event loop reports. Times are in nanoseconds.
#[derive(Clone, Copy, Debug, PartialEq, Eq)]
pub enum Event {
    /// A display has appeared; its window has the given size in physical
    /// pixels.
    DisplayConnected { window_id: u64, width: u32, height: u32 },
    /// A window is to be closed.
    CloseRequested { window_id: u64 },
    /// The next image of a window's swap target could not be had.
    TargetFailed { window_id: u64 },
    /// A window has a new size, in physical pixels.
    Resized { window_id: u64, width: u32, height: u32 },
    /// All pending events were handled.
    EventsCleared,
    /// A wait ended before its time, at `now`.
    WaitCancelled { requested_resume: Option<u128>, now: u128 },
    /// The time of the next tick has come. `now` is the time the ticks
    /// are scheduled by, `clock` the reading of the playback clock.
    ResumeTimeReached { now: u128, clock: u128 },
    /// A window asks to be drawn.
    RedrawRequested,
    /// Anything else.
    Other,
}

/// How the event loop goes on.
#[derive(Clone, Copy, Debug, PartialEq, Eq)]
pub enum LoopControl {
    /// Sleep until the given time or the next event.
    WaitUntil { deadline: u128 },
    /// Leave the loop: nothing is left to draw on.
    Exit,
}

/// What the program is to do after an event.
#[derive(Clone, Debug, PartialEq, Eq)]
pub enum Action {
    /// Nothing.
    Nothing,
    /// Make the swap target of `window` and place it as the background
    /// of its display.
    Create { window: PipelineWindow },
    /// Let go of all that belongs to the window.
    Release { window_id: u64 },
    /// Make the swap target of `window` anew, then have it redrawn.
    Recreate { window: PipelineWindow },
    /// Have these windows schedule a redraw.
    Redraw { windows: Vec<u64> },
    /// Submit the uniform write, then the draws.
    Render { write: UniformWrite, draws: Vec<DrawCall> },
}

/// The answer to one event.
#[derive(Clone, Debug, PartialEq, Eq)]
pub struct Reaction {
    /// How the loop goes on; `None` leaves it as it was.
    pub control: Option<LoopControl>,
    /// What is to be done.
    pub action: Action,
}

/// The running wallpaper: the clock, the display targets and the time of
/// the next tick.
#[derive(Clone, Debug, PartialEq, Eq)]
pub struct Wallpaper {
    pub pipeline: Pipeline,
    pub windows: PipelineWindows,
    /// When the next tick is due.
    pub next_update: u128,
    /// Time from one tick to the next.
    pub timer_length: u32,
}

/// The time `period` after `now`, held at the largest time there is.
pub open spec fn deadline_after(now: u128, period: u32) -> u128 {
    if now + period > u128::MAX {
        u128::MAX
    } else {
        (now + period) as u128
    }
}

/// How the loop goes on once a target was dropped: it ends when none is
/// left.
pub open spec fn control_after_drop(left: Seq<PipelineWindow>) -> Option<LoopControl> {
    if left.len() == 0 {
        Some(LoopControl::Exit)
    } else {
        None
    }
}

/// The time `period` after `now`.
pub fn next_deadline(now: u128, period: u32) -> (deadline: u128)
    ensures
        deadline == deadline_after(now, period),
{
    if now > u128::MAX - period as u128 {
        u128::MAX
    } else {
        now + period as u128
    }
}

impl Wallpaper {
    /// The invariant: clock and targets are in order.
    pub open spec fn wf(&self) -> bool {
        self.pipeline.wf() && self.windows.wf()
    }

    /// Whether `event` can be handled: a wall-clock playback is never
    /// asked to tick at a reading before its start.
    pub open spec fn accepts(&self, event: Event) -> bool {
        match event {
            Event::ResumeTimeReached { now, clock } => self.pipeline.spec_use_timestamp() ==> clock
                >= self.pipeline.started_at,
            _ => true,
        }
    }

    /// Whether `event` can be handled.
    pub fn can_handle(&self, event: &Event) -> (accepted: bool)
        ensures
            accepted == self.accepts(*event),
    {
        match event {
            Event::ResumeTimeReached { now, clock } => !self.pipeline.use_timestamp() || *clock
                >= self.pipeline.started_at,
            _ => true,
        }
    }

    /// The wallpaper at its start: the first tick is due at once.
    pub fn new(pipeline: Pipeline, windows: PipelineWindows, timer_length: u32, now: u128) -> (made:
        Wallpaper)
        ensures
            made == (Wallpaper { pipeline, windows, next_update: now, timer_length }),
    {
        Wallpaper { pipeline, windows, next_update: now, timer_length }
    }

    /// Handles one event.
    ///
    /// A display that appears gets a target, once. Closing a window, or
    /// failing to get the next image of its swap target, drops its
    /// target and nothing else, and the loop ends when none is left; a
    /// window that has no target is ignored. A resize touches the one
    /// target it names. A tick that is due
    /// schedules the next one a period after now, advances the clock and
    /// asks every window to redraw; ticks that were missed are not made up
    /// for. A redraw stages the uniform block for the current position
    /// and then draws on every target.
    pub fn handle(&mut self, event: Event) -> (reaction: Reaction)
        requires
            old(self).wf(),
            old(self).accepts(event),
        ensures
            final(self).wf(),
            final(self).timer_length == old(self).timer_length,
            match event {
                Event::DisplayConnected { window_id, width, height } => {
                    &&& final(self).pipeline == old(self).pipeline
                    &&& final(self).next_update == old(self).next_update
                    &&& reaction.control is None
                    &&& if has_window(old(self).windows.windows@, window_id) {
                        &&& final(self).windows.windows@ == old(self).windows.windows@
                        &&& reaction.action is Nothing
                    } else {
                        &&& final(self).windows.windows@ == old(self).windows.windows@.push(
                            PipelineWindow {
                                window_id,
                                swap_chain: swap_chain_for(width, height),
                            },
                        )
                        &&& reaction.action == (Action::Create {
                            window: PipelineWindow {
                                window_id,
                                swap_chain: swap_chain_for(width, height),
                            },
                        })
                    }
                },
                Event::CloseRequested { window_id } | Event::TargetFailed { window_id } => {
                    &&& final(self).pipeline == old(self).pipeline
                    &&& final(self).next_update == old(self).next_update
                    &&& final(self).windows.windows@ == without_window(
                        old(self).windows.windows@,
                        window_id,
                    )
                    &&& reaction.control == control_after_drop(final(self).windows.windows@)
                    &&& reaction.action == if has_window(old(self).windows.windows@, window_id) {
                        Action::Release { window_id }
                    } else {
                        Action::Nothing
                    }
                },
                Event::Resized { window_id, width, height } => {
                    &&& final(self).pipeline == old(self).pipeline
                    &&& final(self).next_update == old(self).next_update
                    &&& final(self).windows.windows@ == with_resized(
                        old(self).windows.windows@,
                        window_id,
                        width,
                        height,
                    )
                    &&& reaction.control is None
                    &&& if has_window(old(self).windows.windows@, window_id) {
                        reaction.action == (Action::Recreate {
                            window: PipelineWindow {
                                window_id,
                                swap_chain: swap_chain_for(width, height),
                            },
                        })
                    } else {
                        reaction.action is Nothing
                    }
                },
                Event::WaitCancelled { requested_resume, now } => {
                    &&& final(self).pipeline == old(self).pipeline
                    &&& final(self).windows == old(self).windows
                    &&& final(self).next_update == match requested_resume {
                        Some(resume) => resume,
                        None => deadline_after(now, old(self).timer_length),
                    }
                    &&& reaction.control == Some(
                        LoopControl::WaitUntil { deadline: final(self).next_update },
                    )
                    &&& reaction.action is Nothing
                },
                Event::ResumeTimeReached { now, clock } => {
                    &&& final(self).pipeline == old(self).pipeline.advanced(clock)
                    &&& final(self).windows == old(self).windows
                    &&& final(self).next_update == deadline_after(now, old(self).timer_length)
                    &&& reaction.control == Some(
                        LoopControl::WaitUntil { deadline: final(self).next_update },
                    )
                    &&& reaction.action matches Action::Redraw { windows }
                    &&& windows@.len() == old(self).windows.windows@.len()
                    &&& forall|i: int|
                        0 <= i < windows@.len() ==> windows@[i] == (
                        #[trigger] old(self).windows.windows@[i]).window_id
                },
                Event::RedrawRequested => {
                    &&& final(self).pipeline == (Pipeline {
                        uniform: final(self).pipeline.uniform,
                        staged: old(self).pipeline.position,
                        staged_bits: final(self).pipeline.staged_bits,
                        ..old(self).pipeline
                    })
                    &&& final(self).pipeline.spec_is_synced()
                    &&& final(self).windows == old(self).windows
                    &&& final(self).next_update == old(self).next_update
                    &&& reaction.control == Some(
                        LoopControl::WaitUntil { deadline: old(self).next_update },
                    )
                    &&& reaction.action matches Action::Render { write, draws }
                    &&& write.data@ == final(self).pipeline.uniform@
                    &&& write.offset == 0
                    &&& draws@.len() == old(self).windows.windows@.len()
                    &&& forall|i: int|
                        0 <= i < draws@.len() ==> draws@[i] == draw_of(
                            #[trigger] old(self).windows.windows@[i],
                            final(self).pipeline,
                        )
                },
                Event::EventsCleared | Event::Other => {
                    &&& *final(self) == *old(self)
                    &&& reaction.control == Some(
                        LoopControl::WaitUntil { deadline: old(self).next_update },
                    )
                    &&& reaction.action is Nothing
                },
            },
    {
        match event {
            Event::DisplayConnected { window_id, width, height } => {
                let window = PipelineWindow::new(window_id, width, height);
                let action = if self.windows.insert(window) {
                    Action::Create { window }
                } else {
                    Action::Nothing
                };
                Reaction { control: None, action }
            },
            Event::CloseRequested { window_id } | Event::TargetFailed { window_id } => {
                let action = match self.windows.find(window_id) {
                    Some(_) => Action::Release { window_id },
                    None => Action::Nothing,
                };
                self.windows.close(window_id);
                let control = if self.windows.is_empty() {
                    Some(LoopControl::Exit)
                } else {
                    None
                };
                Reaction { control, action }
            },
            Event::Resized { window_id, width, height } => {
                let action = if self.windows.resize(window_id, width, height) {
                    Action::Recreate { window: PipelineWindow::new(window_id, width, height) }
                } else {
                    Action::Nothing
                };
                Reaction { control: None, action }
            },
            Event::WaitCancelled { requested_resume, now } => {
                self.next_update = match requested_resume {
                    Some(resume) => resume,
                    None => next_deadline(now, self.timer_length),
                };
                Reaction {
                    control: Some(LoopControl::WaitUntil { deadline: self.next_update }),
                    action: Action::Nothing,
                }
            },
            Event::ResumeTimeReached { now, clock } => {
                self.next_update = next_deadline(now, self.timer_length);
                self.pipeline.go_to_next_frame(clock);
                let windows = self.windows.request_redraw();
                Reaction {
                    control: Some(LoopControl::WaitUntil { deadline: self.next_update }),
                    action: Action::Redraw { windows },
                }
            },
            Event::RedrawRequested => {
                let write = self.pipeline.update_shader_globals();
                let draws = self.windows.render(&self.pipeline);
                Reaction {
                    control: Some(LoopControl::WaitUntil { deadline: self.next_update }),
                    action: Action::Render { write, draws },
                }
            },
            Event::EventsCleared | Event::Other => Reaction {
                control: Some(LoopControl::WaitUntil { deadline: self.next_update }),
                action: Action::Nothing,
            },
        }
    }
}

} // verus!
