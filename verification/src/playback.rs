//! The playback clock: where the animation stands, and how a tick moves it.
//!
//! A clock either steps through the frames at a fixed rate, wrapping at the
//! end, or reports the time since it was started. Which of the two it does
//! is settled when it is built and never changes.

use vstd::prelude::*;
use vstd::arithmetic::div_mod::{lemma_add_mod_noop_right, lemma_mod_bound, lemma_small_mod};
use crate::binary32::{is_nearest, lemma_zero_is_nearest, nearest_bits};
use crate::options::{Opt, NANOS_PER_SECOND};
use crate::uniform::{encode_uniform, uniform_block};

verus! {

/// The playback position, kept exactly.
#[derive(Clone, Copy, Debug, PartialEq, Eq)]
pub enum Position {
    /// The fractional frame index `numerator / denominator`.
    Frames { numerator: u64, denominator: u32 },
    /// Nanoseconds since playback started.
    Seconds { nanos: u128 },
}

/// Why a clock cannot be built.
#[derive(Clone, Copy, Debug, PartialEq, Eq)]
pub enum PipelineError {
    /// The frame source holds no frame.
    NoFrames,
    /// No image is to be rendered per second.
    ZeroRenderedRate,
}

/// One copy of the staged uniform block into the buffer the shader reads.
#[derive(Clone, Debug, PartialEq, Eq)]
pub struct UniformWrite {
    /// The bytes to copy.
    pub data: Vec<u8>,
    /// Where in the uniform buffer the copy starts.
    pub offset: u64,
}

/// The playback clock together with the uniform block it maintains.
#[derive(Clone, Debug, PartialEq, Eq)]
pub struct Pipeline {
    /// Where the animation stands.
    pub position: Position,
    /// Number of frames of the animation.
    pub total_frame: u32,
    /// Frames shown per second.
    pub fps: u32,
    /// Images rendered per second.
    pub rendered_fps: u32,
    /// Clock reading, in nanoseconds, at which playback started.
    pub started_at: u128,
    /// The uniform block as last written.
    pub uniform: Vec<u8>,
    /// The position that the last written uniform block stands for.
    pub staged: Position,
    /// That position as the uniform block holds it.
    pub staged_bits: u32,
}

/// The frames that the built-in fragment stage reads at a stepping
/// position: it shows `current`, blended with `next` in the proportion
/// `weight / scale`.
#[derive(Clone, Copy, Debug, PartialEq, Eq)]
pub struct Blend {
    pub current: u32,
    pub next: u32,
    pub weight: u32,
    pub scale: u32,
}

/// Number of position units in one run through the animation: every frame
/// lasts `rendered_fps` units.
pub open spec fn cycle_length(total_frame: u32, rendered_fps: u32) -> int {
    total_frame as int * rendered_fps as int
}

/// The numerator after `ticks` steps of `fps` from `start`, wrapping at
/// `cycle`.
pub open spec fn stepped(start: int, fps: int, cycle: int, ticks: nat) -> int
    decreases ticks,
{
    if ticks == 0 {
        start
    } else {
        (stepped(start, fps, cycle, (ticks - 1) as nat) + fps) % cycle
    }
}

impl Position {
    /// Whether the position is one a clock with these rates can hold.
    pub open spec fn fits(self, total_frame: u32, rendered_fps: u32) -> bool {
        match self {
            Position::Frames { numerator, denominator } => {
                &&& denominator == rendered_fps
                &&& (numerator as int) < cycle_length(total_frame, rendered_fps)
            },
            Position::Seconds { nanos } => true,
        }
    }

    /// Whether `bits` is this position as the fragment stage reads it: the
    /// 32-bit binary number nearest to the frame index, or to the time in
    /// seconds.
    pub open spec fn is_encoded_by(self, bits: u32) -> bool {
        match self {
            Position::Frames { numerator, denominator } => is_nearest(
                bits,
                numerator as nat,
                denominator as nat,
            ),
            Position::Seconds { nanos } => is_nearest(bits, nanos as nat, NANOS_PER_SECOND as nat),
        }
    }

    /// The position as the fragment stage reads it.
    pub fn to_bits(self) -> (bits: u32)
        requires
            self is Frames ==> self->denominator > 0,
        ensures
            self.is_encoded_by(bits),
    {
        match self {
            Position::Frames { numerator, denominator } => {
                assert(numerator as int <= 0xFFFF_FFFF_FFFF_FFFF);
                assert(0xFFFF_FFFF_FFFF_FFFF < crate::binary32::RATIO_LIMIT as int
                    * denominator as int) by (nonlinear_arith)
                    requires
                        denominator >= 1,
                        crate::binary32::RATIO_LIMIT == 0x10_0000_0000_0000_0000_0000_0000,
                ;
                nearest_bits(numerator as u128, denominator)
            },
            Position::Seconds { nanos } => nearest_bits(nanos, NANOS_PER_SECOND),
        }
    }

    /// The frames read at this position: the whole part of the frame
    /// index and the frame after it, wrapping to the first one, with the
    /// fractional part as the weight of the second.
    pub open spec fn blend(self, total_frame: u32) -> Blend
        recommends
            self is Frames,
    {
        Blend {
            current: (self->numerator as int / self->denominator as int) as u32,
            next: ((self->numerator as int / self->denominator as int + 1) % total_frame as int) as u32,
            weight: (self->numerator as int % self->denominator as int) as u32,
            scale: self->denominator,
        }
    }

    /// The frames that the built-in fragment stage reads at this
    /// position of an animation of `total_frame` frames; `None` for a
    /// wall-clock position, which only a custom stage can read.
    pub fn sampled_frames(self, total_frame: u32) -> (sampled: Option<Blend>)
        requires
            total_frame > 0,
            self is Frames ==> self->denominator > 0 && self.fits(total_frame, self->denominator),
        ensures
            sampled is Some <==> self is Frames,
            sampled matches Some(blend) ==> {
                &&& blend == self.blend(total_frame)
                &&& blend.current < total_frame
                &&& blend.next < total_frame
                &&& blend.weight < blend.scale
                &&& blend.current * blend.scale + blend.weight == self->numerator
            },
    {
        match self {
            Position::Frames { numerator, denominator } => {
                let whole: u64 = numerator / denominator as u64;
                let part: u64 = numerator % denominator as u64;
                proof {
                    let n = numerator as int;
                    let d = denominator as int;
                    let t = total_frame as int;
                    vstd::arithmetic::div_mod::lemma_fundamental_div_mod(n, d);
                    vstd::arithmetic::div_mod::lemma_div_pos_is_pos(n, d);
                    if n / d >= t {
                        assert(d * (n / d) >= d * t) by (nonlinear_arith)
                            requires
                                n / d >= t,
                                d > 0,
                        ;
                        assert(d * t == t * d) by (nonlinear_arith);
                    }
                    assert((n / d) * d == d * (n / d)) by (nonlinear_arith);
                }
                let current: u32 = whole as u32;
                let next: u32 = if current == total_frame - 1 {
                    0
                } else {
                    current + 1
                };
                proof {
                    let t = total_frame as int;
                    if current == total_frame - 1 {
                        vstd::arithmetic::div_mod::lemma_mod_self_0(t);
                    } else {
                        lemma_small_mod((current + 1) as nat, t as nat);
                    }
                }
                Some(Blend { current, next, weight: part as u32, scale: denominator })
            },
            Position::Seconds { .. } => None,
        }
    }
}

impl Pipeline {
    /// The invariant of a clock: it has frames and a rendering rate, its
    /// position lies within one run through the animation, and the uniform
    /// block holds the frame count and the staged position.
    pub open spec fn wf(&self) -> bool {
        &&& self.total_frame > 0
        &&& self.rendered_fps > 0
        &&& self.position.fits(self.total_frame, self.rendered_fps)
        &&& self.staged.fits(self.total_frame, self.rendered_fps)
        &&& (self.position is Seconds <==> self.staged is Seconds)
        &&& self.staged.is_encoded_by(self.staged_bits)
        &&& self.uniform@ == uniform_block(self.total_frame, self.staged_bits)
    }

    /// Whether the clock follows the wall clock.
    pub open spec fn spec_use_timestamp(&self) -> bool {
        self.position is Seconds
    }

    /// Whether the uniform block stands for the current position.
    pub open spec fn spec_is_synced(&self) -> bool {
        self.staged == self.position
    }

    /// The position one tick after `self.position`, read at clock value
    /// `now`.
    pub open spec fn next_position(&self, now: u128) -> Position {
        match self.position {
            Position::Frames { numerator, denominator } => Position::Frames {
                numerator: ((numerator as int + self.fps as int) % cycle_length(
                    self.total_frame,
                    self.rendered_fps,
                )) as u64,
                denominator,
            },
            Position::Seconds { nanos } => Position::Seconds {
                nanos: (now as int - self.started_at as int) as u128,
            },
        }
    }

    /// The clock one tick later.
    pub open spec fn advanced(&self, now: u128) -> Pipeline {
        Pipeline { position: self.next_position(now), ..*self }
    }

    /// The clock after one tick at each of the clock values `nows`, in
    /// turn.
    pub open spec fn after_ticks(&self, nows: Seq<u128>) -> Pipeline
        decreases nows.len(),
    {
        if nows.len() == 0 {
            *self
        } else {
            self.after_ticks(nows.drop_last()).advanced(nows.last())
        }
    }

    /// Builds the clock for an animation of `total_frame` frames, started
    /// at clock value `now`. It steps through the frames unless a custom
    /// fragment shader is configured; then it follows the wall clock.
    pub fn new(options: &Opt, total_frame: u32, now: u128) -> (made: Result<Pipeline, PipelineError>)
        ensures
            made is Ok <==> total_frame != 0 && options.rendered_fps != 0,
            made matches Err(error) ==> error == if total_frame == 0 {
                PipelineError::NoFrames
            } else {
                PipelineError::ZeroRenderedRate
            },
            made matches Ok(pipeline) ==> {
                &&& pipeline.wf()
                &&& pipeline.total_frame == total_frame
                &&& pipeline.fps == options.fps
                &&& pipeline.rendered_fps == options.rendered_fps
                &&& pipeline.started_at == now
                &&& pipeline.uniform@ == uniform_block(total_frame, 0)
                &&& pipeline.staged_bits == 0
                &&& pipeline.spec_is_synced()
                &&& pipeline.position == if options.spec_use_timestamp() {
                    Position::Seconds { nanos: 0 }
                } else {
                    Position::Frames { numerator: 0, denominator: options.rendered_fps }
                }
            },
    {
        if total_frame == 0 {
            return Err(PipelineError::NoFrames);
        }
        if options.rendered_fps == 0 {
            return Err(PipelineError::ZeroRenderedRate);
        }
        let position = if options.use_timestamp() {
            Position::Seconds { nanos: 0 }
        } else {
            Position::Frames { numerator: 0, denominator: options.rendered_fps }
        };
        let uniform = encode_uniform(total_frame, 0);
        proof {
            lemma_zero_is_nearest(options.rendered_fps as nat);
            lemma_zero_is_nearest(NANOS_PER_SECOND as nat);
            assert(0 < total_frame as int * options.rendered_fps as int) by (nonlinear_arith)
                requires
                    total_frame > 0,
                    options.rendered_fps > 0,
            ;
        }
        Ok(
            Pipeline {
                position,
                total_frame,
                fps: options.fps,
                rendered_fps: options.rendered_fps,
                started_at: now,
                uniform,
                staged: position,
                staged_bits: 0,
            },
        )
    }

    /// Whether the clock follows the wall clock.
    #[verifier::when_used_as_spec(spec_use_timestamp)]
    pub fn use_timestamp(&self) -> (timestamp: bool)
        ensures
            timestamp == self.spec_use_timestamp(),
    {
        match self.position {
            Position::Frames { .. } => false,
            Position::Seconds { .. } => true,
        }
    }

    /// Whether the uniform block stands for the current position.
    #[verifier::when_used_as_spec(spec_is_synced)]
    pub fn is_synced(&self) -> (synced: bool)
        ensures
            synced == self.spec_is_synced(),
    {
        match (self.staged, self.position) {
            (
                Position::Frames { numerator: a, denominator: b },
                Position::Frames { numerator: c, denominator: d },
            ) => a == c && b == d,
            (Position::Seconds { nanos: a }, Position::Seconds { nanos: b }) => a == b,
            _ => false,
        }
    }

    /// Moves the position by one tick. A stepping clock adds
    /// `fps / rendered_fps` frames and wraps at the frame count; a
    /// wall-clock one takes the time from its start to `now`.
    pub fn go_to_next_frame(&mut self, now: u128)
        requires
            old(self).wf(),
            old(self).spec_use_timestamp() ==> now >= old(self).started_at,
        ensures
            final(self).wf(),
            *final(self) == old(self).advanced(now),
    {
        match self.position {
            Position::Frames { numerator, denominator } => {
                let total: u64 = self.total_frame as u64;
                let rate: u64 = self.rendered_fps as u64;
                proof {
                    lemma_cycle_bounds(self.total_frame, self.rendered_fps);
                }
                let cycle: u64 = total * rate;
                let next: u64 = (numerator + self.fps as u64) % cycle;
                self.position = Position::Frames { numerator: next, denominator };
            },
            Position::Seconds { nanos } => {
                self.position = Position::Seconds { nanos: now - self.started_at };
            },
        }
    }

    /// Stages the uniform block for the current position, the frame count
    /// followed by the position as the fragment stage reads it, and
    /// returns the copy that brings it to the GPU.
    pub fn update_shader_globals(&mut self) -> (write: UniformWrite)
        requires
            old(self).wf(),
        ensures
            final(self).wf(),
            final(self).spec_is_synced(),
            *final(self) == (Pipeline {
                uniform: final(self).uniform,
                staged: old(self).position,
                staged_bits: final(self).staged_bits,
                ..*old(self)
            }),
            write.data@ == final(self).uniform@,
            write.offset == 0,
    {
        let bits = self.position.to_bits();
        let staged = encode_uniform(self.total_frame, bits);
        let data = encode_uniform(self.total_frame, bits);
        self.uniform = staged;
        self.staged = self.position;
        self.staged_bits = bits;
        UniformWrite { data, offset: 0 }
    }
}

/// One run through the animation is at least one unit long, and a
/// numerator within it can take one more step without leaving `u64`.
pub proof fn lemma_cycle_bounds(total_frame: u32, rendered_fps: u32)
    requires
        total_frame > 0,
        rendered_fps > 0,
    ensures
        0 < cycle_length(total_frame, rendered_fps),
        cycle_length(total_frame, rendered_fps) + 0xFFFF_FFFF <= u64::MAX,
{
    let t = total_frame as int;
    let r = rendered_fps as int;
    assert(0 < t * r && t * r <= 0xFFFF_FFFF * 0xFFFF_FFFF) by (nonlinear_arith)
        requires
            0 < t <= 0xFFFF_FFFF,
            0 < r <= 0xFFFF_FFFF,
    ;
}

/// After `ticks` steps from `start` the numerator is
/// `(start + ticks * fps) mod cycle`: stepping accumulates no error.
pub proof fn lemma_stepped_closed_form(start: int, fps: int, cycle: int, ticks: nat)
    requires
        0 <= start < cycle,
        0 <= fps,
    ensures
        stepped(start, fps, cycle, ticks) == (start + ticks * fps) % cycle,
        0 <= stepped(start, fps, cycle, ticks) < cycle,
    decreases ticks,
{
    if ticks == 0 {
        lemma_small_mod(start as nat, cycle as nat);
    } else {
        let before = (ticks - 1) as nat;
        lemma_stepped_closed_form(start, fps, cycle, before);
        lemma_add_mod_noop_right(fps, start + before * fps, cycle);
        assert(start + before * fps + fps == start + ticks * fps) by (nonlinear_arith)
            requires
                before == ticks - 1,
        ;
        lemma_mod_bound(start + ticks * fps, cycle);
    }
}

/// A stepping clock that has ticked `nows.len()` times stands at
/// `(start + ticks * fps) mod (total_frame * rendered_fps)` units of
/// `1 / rendered_fps` frames, whatever the clock values were, and
/// everything but its position is as before.
pub proof fn lemma_stepping_wraps(pipeline: Pipeline, nows: Seq<u128>)
    requires
        pipeline.wf(),
        !pipeline.spec_use_timestamp(),
    ensures
        pipeline.after_ticks(nows).wf(),
        pipeline.after_ticks(nows) == (Pipeline {
            position: pipeline.after_ticks(nows).position,
            ..pipeline
        }),
        pipeline.after_ticks(nows).position == (Position::Frames {
            numerator: ((pipeline.position->numerator + nows.len() * pipeline.fps) % cycle_length(
                pipeline.total_frame,
                pipeline.rendered_fps,
            )) as u64,
            denominator: pipeline.rendered_fps,
        }),
    decreases nows.len(),
{
    let cycle = cycle_length(pipeline.total_frame, pipeline.rendered_fps);
    let start = pipeline.position->numerator as int;
    let fps = pipeline.fps as int;
    lemma_cycle_bounds(pipeline.total_frame, pipeline.rendered_fps);
    lemma_stepped_closed_form(start, fps, cycle, nows.len());
    if nows.len() == 0 {
    } else {
        let before = nows.drop_last();
        lemma_stepping_wraps(pipeline, before);
        lemma_stepped_closed_form(start, fps, cycle, before.len());
        assert(stepped(start, fps, cycle, nows.len()) == (stepped(
            start,
            fps,
            cycle,
            before.len(),
        ) + fps) % cycle);
    }
}

/// A wall-clock position is the time since the start, as it is: a later
/// clock value gives a later position, an equal one the same, and no
/// value makes it wrap.
pub proof fn lemma_timestamp_monotonic(pipeline: Pipeline, earlier: u128, later: u128)
    requires
        pipeline.wf(),
        pipeline.spec_use_timestamp(),
        pipeline.started_at <= earlier <= later,
    ensures
        pipeline.advanced(earlier).position->nanos == earlier - pipeline.started_at,
        pipeline.advanced(earlier).advanced(later).position->nanos == later - pipeline.started_at,
        pipeline.advanced(earlier).position->nanos <= pipeline.advanced(earlier).advanced(
            later,
        ).position->nanos,
        earlier < later ==> pipeline.advanced(earlier).position->nanos < pipeline.advanced(
            earlier,
        ).advanced(later).position->nanos,
{
}

} // verus!
