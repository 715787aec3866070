//! Animation clips: a range of frames on a sprite sheet, and the cursor that
//! plays through it at a fixed cadence.

use crate::timer::tick_repeating;
use vstd::arithmetic::div_mod::{
    lemma_add_mod_noop_right, lemma_basic_div, lemma_div_is_ordered, lemma_div_plus_one,
    lemma_fundamental_div_mod, lemma_fundamental_div_mod_converse_div,
    lemma_fundamental_div_mod_converse_mod, lemma_mod_bound, lemma_small_mod,
};
use vstd::prelude::*;

verus! {

/// How a clip behaves at the end of its frame range.
#[derive(Clone, Copy, Debug, PartialEq, Eq, Structural)]
pub enum AnimationMode {
    /// The clip stops on its last frame.
    Once,
    /// The clip starts over, and never stops.
    Repeating,
}

/// Whether a clip still moves.
#[derive(Clone, Copy, Debug, PartialEq, Eq, Structural)]
pub enum AnimationState {
    Playing,
    Finished,
}

impl Default for AnimationMode {
    fn default() -> (mode: Self)
        ensures
            mode == AnimationMode::Repeating,
    {
        AnimationMode::Repeating
    }
}

impl Default for AnimationState {
    fn default() -> (state: Self)
        ensures
            state == AnimationState::Playing,
    {
        AnimationState::Playing
    }
}

/// Why a clip cannot be built.
#[derive(Clone, Copy, Debug, PartialEq, Eq, Structural)]
pub enum AnimationError {
    /// The cadence is zero nanoseconds per frame.
    ZeroFrameTime,
    /// The frame range holds no frame: `start >= end`.
    EmptyRange,
    /// A clip that plays once needs a frame to start on and another to stop on.
    SingleFrameOnce,
}

/// What is shown of a character: a frame of the sprite sheet, mirrored or not.
#[derive(Clone, Copy, Debug, PartialEq, Eq, Structural)]
pub struct SpriteFrame {
    pub index: usize,
    pub flip_x: bool,
}

/// The frame range of a clip, with the way it is played and shown.
#[derive(Clone, Copy, Debug, PartialEq, Eq, Structural)]
pub struct ClipParams {
    pub start: usize,
    pub end: usize,
    pub flip_x: bool,
    pub play_mode: AnimationMode,
}

impl ClipParams {
    /// The range holds a frame, and two if the clip plays once.
    pub open spec fn valid(self) -> bool {
        &&& self.start < self.end
        &&& self.play_mode == AnimationMode::Once ==> self.start + 1 < self.end
    }
}

/// The mathematical model of an [`Animation`].
pub struct Clip {
    /// First frame of the range.
    pub start: nat,
    /// One past the last frame of the range.
    pub end: nat,
    pub play_mode: AnimationMode,
    pub flip_x: bool,
    pub state: AnimationState,
    /// Offset of the current frame from `start`.
    pub current_frame: nat,
    /// Nanoseconds from one frame to the next.
    pub frame_time: nat,
    /// Nanoseconds gone by since the last frame step.
    pub elapsed: nat,
}

impl Clip {
    /// Number of frames in the range.
    pub open spec fn len(self) -> nat {
        (self.end - self.start) as nat
    }

    /// The frame of the sprite sheet that the cursor stands on.
    pub open spec fn frame(self) -> nat {
        self.start + self.current_frame
    }

    /// The invariant of a clip. Its range holds a frame, its cadence is not
    /// zero, and less than one frame time is on its clock. A repeating clip
    /// always plays, with its cursor anywhere in the range. A clip that plays
    /// once plays while the cursor is before the last frame, and is finished
    /// on the last frame.
    pub open spec fn wf(self) -> bool {
        &&& self.start < self.end <= usize::MAX
        &&& 0 < self.frame_time
        &&& self.elapsed < self.frame_time
        &&& match self.play_mode {
            AnimationMode::Repeating => {
                &&& self.state == AnimationState::Playing
                &&& self.current_frame < self.len()
            },
            AnimationMode::Once => {
                &&& 2 <= self.len()
                &&& self.state == AnimationState::Playing ==> self.current_frame + 1 < self.len()
                &&& self.state == AnimationState::Finished ==> self.current_frame + 1 == self.len()
            },
        }
    }

    /// The frame range of the clip, with the way it is played and shown.
    pub open spec fn params(self) -> ClipParams {
        ClipParams {
            start: self.start as usize,
            end: self.end as usize,
            flip_x: self.flip_x,
            play_mode: self.play_mode,
        }
    }

    /// The clip rewritten to play `params` from the first frame, at the
    /// cadence it had.
    pub open spec fn playing(self, params: ClipParams) -> Clip {
        Clip {
            start: params.start as nat,
            end: params.end as nat,
            flip_x: params.flip_x,
            play_mode: params.play_mode,
            ..self.reset()
        }
    }

    /// The clip rewound: cursor on the first frame, playing, no time gone by.
    pub open spec fn reset(self) -> Clip {
        Clip { current_frame: 0, state: AnimationState::Playing, elapsed: 0, ..self }
    }

    /// The clip after one frame step. A finished clip stays as it is. A
    /// repeating clip moves its cursor on by one and wraps at the end of the
    /// range. A clip that plays once moves its cursor on by one and finishes as
    /// it reaches the last frame.
    pub open spec fn step(self) -> Clip {
        if self.state == AnimationState::Finished {
            self
        } else {
            match self.play_mode {
                AnimationMode::Repeating => Clip {
                    current_frame: (self.current_frame + 1) % self.len(),
                    ..self
                },
                AnimationMode::Once => Clip {
                    current_frame: self.current_frame + 1,
                    state: if self.start + self.current_frame + 1 == self.end - 1 {
                        AnimationState::Finished
                    } else {
                        AnimationState::Playing
                    },
                    ..self
                },
            }
        }
    }

    /// The clip after `n` frame steps.
    pub open spec fn steps(self, n: nat) -> Clip
        decreases n,
    {
        if n == 0 {
            self
        } else {
            self.step().steps((n - 1) as nat)
        }
    }

    /// Number of frame steps that fall due when `delta` more nanoseconds pass:
    /// the whole frame times in the time gone by since the last step.
    pub open spec fn steps_due(self, delta: nat) -> nat {
        (self.elapsed + delta) / self.frame_time
    }

    /// The clip after `delta` more nanoseconds. A finished clip stays as it
    /// is. A playing clip takes every step that falls due, and keeps the time
    /// left over for the next call.
    pub open spec fn advance(self, delta: nat) -> Clip {
        if self.state == AnimationState::Finished {
            self
        } else {
            Clip { elapsed: (self.elapsed + delta) % self.frame_time, ..self }.steps(
                self.steps_due(delta),
            )
        }
    }

    /// What is shown of the clip: its current frame, mirrored as the clip says.
    pub open spec fn shown(self) -> SpriteFrame {
        SpriteFrame { index: self.frame() as usize, flip_x: self.flip_x }
    }
}

/// A frame step keeps a clip well formed, and changes nothing but the cursor
/// and the state.
pub proof fn lemma_step_keeps_clip(c: Clip)
    requires
        c.wf(),
    ensures
        c.step().wf(),
        c.step() == (Clip { current_frame: c.step().current_frame, state: c.step().state, ..c }),
{
    if c.state == AnimationState::Playing && c.play_mode == AnimationMode::Repeating {
        lemma_mod_bound(c.current_frame + 1 as int, c.len() as int);
    }
}

/// A finished clip stays as it is, however many frame steps it is given.
pub proof fn lemma_finished_stays(c: Clip, n: nat)
    requires
        c.state == AnimationState::Finished,
    ensures
        c.steps(n) == c,
    decreases n,
{
    if n > 0 {
        lemma_finished_stays(c, (n - 1) as nat);
    }
}

/// A repeating clip never finishes. After `n` frame steps its cursor has moved
/// on by `n` and wrapped at the length of the range, so that a clip that
/// starts on its first frame stands at `n` modulo the length.
pub proof fn lemma_repeating_cursor(c: Clip, n: nat)
    requires
        c.wf(),
        c.play_mode == AnimationMode::Repeating,
    ensures
        c.steps(n) == (Clip {
            current_frame: (c.current_frame + n) % c.len(),
            ..c
        }),
        c.steps(n).state == AnimationState::Playing,
        c.current_frame == 0 ==> c.steps(n).current_frame == n % c.len(),
        c.steps(n).wf(),
    decreases n,
{
    let len = c.len() as int;
    if n == 0 {
        lemma_small_mod(c.current_frame, c.len());
    } else {
        lemma_step_keeps_clip(c);
        lemma_repeating_cursor(c.step(), (n - 1) as nat);
        lemma_add_mod_noop_right(n - 1, c.current_frame + 1 as int, len);
    }
    lemma_mod_bound(c.current_frame + n as int, len);
}

/// A playing clip that plays once moves its cursor on by one with each frame
/// step until it stands on the last frame of the range. There it finishes, and
/// further steps change nothing. It is finished after `n` steps exactly if `n`
/// steps reach the last frame: from the first frame, if `n` is at least the
/// length of the range less one.
pub proof fn lemma_once_cursor(c: Clip, n: nat)
    requires
        c.wf(),
        c.play_mode == AnimationMode::Once,
        c.state == AnimationState::Playing,
    ensures
        c.current_frame + n + 1 < c.len() ==> c.steps(n) == (Clip {
            current_frame: c.current_frame + n,
            ..c
        }),
        c.current_frame + n + 1 >= c.len() ==> c.steps(n) == (Clip {
            current_frame: (c.len() - 1) as nat,
            state: AnimationState::Finished,
            ..c
        }),
        c.steps(n).state == AnimationState::Finished <==> c.current_frame + n >= c.len() - 1,
        c.steps(n).state == AnimationState::Finished ==> c.steps(n).frame() == c.end - 1,
        c.current_frame == 0 ==> (c.steps(n).state == AnimationState::Finished <==> n >= c.len()
            - 1),
        c.steps(n).wf(),
    decreases n,
{
    if n > 0 {
        let d = c.step();
        lemma_step_keeps_clip(c);
        if d.state == AnimationState::Finished {
            lemma_finished_stays(d, (n - 1) as nat);
        } else {
            lemma_once_cursor(d, (n - 1) as nat);
        }
    }
}

/// Frame steps, however many, keep a clip well formed and change nothing but
/// the cursor and the state.
pub proof fn lemma_steps_keep_clip(c: Clip, n: nat)
    requires
        c.wf(),
    ensures
        c.steps(n).wf(),
        c.steps(n) == (Clip {
            current_frame: c.steps(n).current_frame,
            state: c.steps(n).state,
            ..c
        }),
{
    if c.state == AnimationState::Finished {
        lemma_finished_stays(c, n);
    } else if c.play_mode == AnimationMode::Repeating {
        lemma_repeating_cursor(c, n);
    } else {
        lemma_once_cursor(c, n);
    }
}

/// Passing time keeps a clip well formed, and changes nothing of its frame
/// range, its mode, its mirroring or its cadence.
pub proof fn lemma_advance_keeps_clip(c: Clip, delta: nat)
    requires
        c.wf(),
    ensures
        c.advance(delta).wf(),
        c.advance(delta) == (Clip {
            current_frame: c.advance(delta).current_frame,
            state: c.advance(delta).state,
            elapsed: c.advance(delta).elapsed,
            ..c
        }),
{
    if c.state == AnimationState::Playing {
        lemma_mod_bound(c.elapsed + delta as int, c.frame_time as int);
        lemma_steps_keep_clip(
            Clip { elapsed: (c.elapsed + delta) % c.frame_time, ..c },
            c.steps_due(delta),
        );
    }
}

/// One clip being played: its frame range, its cursor and its clock.
#[derive(Clone, Copy, Debug)]
pub struct Animation {
    frame_time: u64,
    elapsed: u64,
    start: usize,
    end: usize,
    play_mode: AnimationMode,
    flip_x: bool,
    state: AnimationState,
    current_frame: usize,
}

impl View for Animation {
    type V = Clip;

    closed spec fn view(&self) -> Clip {
        Clip {
            start: self.start as nat,
            end: self.end as nat,
            play_mode: self.play_mode,
            flip_x: self.flip_x,
            state: self.state,
            current_frame: self.current_frame as nat,
            frame_time: self.frame_time as nat,
            elapsed: self.elapsed as nat,
        }
    }
}

impl Animation {
    #[verifier::type_invariant]
    spec fn inv(&self) -> bool {
        self@.wf()
    }

    /// A clip over the frames `start..end`, on its first frame and playing,
    /// that steps every `frame_time` nanoseconds.
    pub fn new(
        frame_time: u64,
        start: usize,
        end: usize,
        play_mode: AnimationMode,
        flip_x: bool,
    ) -> (made: Result<Self, AnimationError>)
        ensures
            frame_time == 0 ==> made == Err::<Self, AnimationError>(AnimationError::ZeroFrameTime),
            frame_time > 0 && start >= end ==> made == Err::<Self, AnimationError>(
                AnimationError::EmptyRange,
            ),
            frame_time > 0 && start + 1 == end && play_mode == AnimationMode::Once ==> made
                == Err::<Self, AnimationError>(AnimationError::SingleFrameOnce),
            frame_time > 0 && (ClipParams { start, end, flip_x, play_mode }).valid() ==> made.is_ok()
                && made.unwrap()@ == (Clip {
                start: start as nat,
                end: end as nat,
                play_mode,
                flip_x,
                state: AnimationState::Playing,
                current_frame: 0,
                frame_time: frame_time as nat,
                elapsed: 0,
            }),
            made.is_ok() ==> made.unwrap()@.wf(),
    {
        if frame_time == 0 {
            return Err(AnimationError::ZeroFrameTime);
        }
        if start >= end {
            return Err(AnimationError::EmptyRange);
        }
        if end - start == 1 && play_mode == AnimationMode::Once {
            return Err(AnimationError::SingleFrameOnce);
        }
        Ok(
            Animation {
                frame_time,
                elapsed: 0,
                start,
                end,
                play_mode,
                flip_x,
                state: AnimationState::Playing,
                current_frame: 0,
            },
        )
    }

    /// Rewrites the clip in place to play `params` from the first frame, at
    /// the cadence it had. A frame range that holds no frame, or only one for
    /// a clip that plays once, is refused, and the clip stays as it is.
    pub fn play(&mut self, params: ClipParams) -> (done: Result<(), AnimationError>)
        ensures
            params.valid() ==> done.is_ok() && final(self)@ == old(self)@.playing(params),
            !params.valid() ==> done.is_err() && final(self)@ == old(self)@,
            params.start >= params.end ==> done == Err::<(), AnimationError>(
                AnimationError::EmptyRange,
            ),
            params.start + 1 == params.end && params.play_mode == AnimationMode::Once ==> done
                == Err::<(), AnimationError>(AnimationError::SingleFrameOnce),
            old(self)@.wf(),
            final(self)@.wf(),
    {
        proof {
            use_type_invariant(&*self);
        }
        if params.start >= params.end {
            return Err(AnimationError::EmptyRange);
        }
        if params.end - params.start == 1 && params.play_mode == AnimationMode::Once {
            return Err(AnimationError::SingleFrameOnce);
        }
        *self = Animation {
            frame_time: self.frame_time,
            elapsed: 0,
            start: params.start,
            end: params.end,
            play_mode: params.play_mode,
            flip_x: params.flip_x,
            state: AnimationState::Playing,
            current_frame: 0,
        };
        Ok(())
    }

    /// First frame of the range.
    pub fn start(&self) -> (start: usize)
        ensures
            start == self@.start,
    {
        self.start
    }

    /// One past the last frame of the range.
    pub fn end(&self) -> (end: usize)
        ensures
            end == self@.end,
    {
        self.end
    }

    /// Whether the clip stops on its last frame or starts over.
    pub fn play_mode(&self) -> (play_mode: AnimationMode)
        ensures
            play_mode == self@.play_mode,
    {
        self.play_mode
    }

    /// Whether the clip is shown mirrored.
    pub fn flip_x(&self) -> (flip_x: bool)
        ensures
            flip_x == self@.flip_x,
    {
        self.flip_x
    }

    /// Whether the clip still moves.
    pub fn state(&self) -> (state: AnimationState)
        ensures
            state == self@.state,
    {
        self.state
    }

    /// Offset of the current frame from the first frame of the range.
    pub fn current_frame(&self) -> (current_frame: usize)
        ensures
            current_frame == self@.current_frame,
    {
        self.current_frame
    }

    /// Nanoseconds from one frame to the next.
    pub fn frame_time(&self) -> (frame_time: u64)
        ensures
            frame_time == self@.frame_time,
    {
        self.frame_time
    }

    /// Nanoseconds gone by since the last frame step.
    pub fn elapsed(&self) -> (elapsed: u64)
        ensures
            elapsed == self@.elapsed,
    {
        self.elapsed
    }

    /// Number of frames in the range.
    pub fn len(&self) -> (n: usize)
        ensures
            n == self@.len(),
            self@.wf(),
    {
        proof {
            use_type_invariant(self);
        }
        self.end - self.start
    }

    /// Rewinds the clip: the cursor goes to the first frame, the clip plays
    /// and its clock starts anew. The frame range, the mode and the mirroring
    /// stay.
    pub fn reset(&mut self)
        ensures
            final(self)@ == old(self)@.reset(),
            final(self)@.current_frame == 0,
            final(self)@.state == AnimationState::Playing,
            final(self)@.wf(),
    {
        proof {
            use_type_invariant(&*self);
        }
        *self = Animation {
            elapsed: 0,
            state: AnimationState::Playing,
            current_frame: 0,
            ..*self
        };
    }

    /// Runs the clip's timer over `delta` nanoseconds: the number of frame
    /// steps that fall due, and the time left over.
    fn run_timer(&self, delta: u64) -> (due: (u64, u64))
        requires
            self@.wf(),
        ensures
            due.0 == self@.steps_due(delta as nat),
            due.1 == (self@.elapsed + delta as nat) % self@.frame_time,
    {
        let frame_time = self.frame_time;
        let elapsed = self.elapsed;
        let whole = delta / frame_time;
        let rest = delta % frame_time;
        proof {
            lemma_fundamental_div_mod(delta as int, frame_time as int);
            lemma_mod_bound(delta as int, frame_time as int);
        }
        if whole < 0xffff_ffff {
            proof {
                // Less than one frame time was on the clock, so at most one
                // step more falls due than `delta` alone holds.
                lemma_div_is_ordered(elapsed + delta, frame_time + delta, frame_time as int);
                lemma_div_plus_one(delta as int, frame_time as int);
            }
            let (steps, left) = tick_repeating(frame_time, elapsed, delta);
            (steps as u64, left)
        } else {
            // More periods than the timer can count in one tick: the whole
            // frame times of `delta` are counted here, the timer takes the rest.
            proof {
                lemma_div_is_ordered(elapsed + rest, 2 * frame_time - 1, frame_time as int);
                lemma_div_plus_one(frame_time - 1, frame_time as int);
                lemma_basic_div(frame_time - 1, frame_time as int);
            }
            let (carry, left) = tick_repeating(frame_time, elapsed, rest);
            proof {
                let total = elapsed + delta;
                lemma_fundamental_div_mod(elapsed + rest, frame_time as int);
                assert(total == (whole + carry) * frame_time + left) by (nonlinear_arith)
                    requires
                        total == elapsed + delta,
                        delta == frame_time * whole + rest,
                        elapsed + rest == frame_time * carry + left,
                ;
                lemma_fundamental_div_mod_converse_div(
                    total,
                    frame_time as int,
                    whole + carry,
                    left as int,
                );
                lemma_fundamental_div_mod_converse_mod(
                    total,
                    frame_time as int,
                    whole + carry,
                    left as int,
                );
                assert(whole + carry <= u64::MAX) by (nonlinear_arith)
                    requires
                        carry <= 1,
                        0 < frame_time,
                        elapsed < frame_time,
                        rest < frame_time,
                        elapsed + rest == frame_time * carry + left,
                        0 <= left,
                        delta == frame_time * whole + rest,
                        delta <= u64::MAX,
                        0 <= whole,
                        0 <= rest,
                ;
            }
            (whole + carry as u64, left)
        }
    }

    /// Lets `delta` nanoseconds pass. A finished clip stays as it is. A
    /// playing clip takes every frame step that falls due, and keeps the time
    /// left over. The result says whether a step was taken.
    pub fn advance(&mut self, delta: u64) -> (stepped: bool)
        ensures
            final(self)@ == old(self)@.advance(delta as nat),
            stepped <==> old(self)@.state == AnimationState::Playing && old(self)@.steps_due(
                delta as nat,
            ) > 0,
            old(self)@.wf(),
            final(self)@.wf(),
    {
        proof {
            use_type_invariant(&*self);
        }
        if self.state == AnimationState::Finished {
            return false;
        }
        let (steps, elapsed) = self.run_timer(delta);
        let len = self.end - self.start;
        let ghost ticked = Clip { elapsed: elapsed as nat, ..self@ };
        proof {
            lemma_mod_bound(self@.elapsed + delta as int, self@.frame_time as int);
        }
        match self.play_mode {
            AnimationMode::Repeating => {
                let cursor = ((self.current_frame as u128 + steps as u128) % (len as u128)) as usize;
                proof {
                    lemma_repeating_cursor(ticked, steps as nat);
                }
                *self = Animation { elapsed, current_frame: cursor, ..*self };
            },
            AnimationMode::Once => {
                let left = len - 1 - self.current_frame;
                proof {
                    lemma_once_cursor(ticked, steps as nat);
                }
                if steps >= left as u64 {
                    *self = Animation {
                        elapsed,
                        current_frame: len - 1,
                        state: AnimationState::Finished,
                        ..*self
                    };
                } else {
                    *self = Animation {
                        elapsed,
                        current_frame: self.current_frame + steps as usize,
                        ..*self
                    };
                }
            },
        }
        steps > 0
    }

    /// What is shown of the clip: its current frame, mirrored as the clip says.
    pub fn shown(&self) -> (sprite: SpriteFrame)
        ensures
            sprite == self@.shown(),
            sprite.index == self@.frame(),
            self@.wf(),
    {
        proof {
            use_type_invariant(self);
        }
        SpriteFrame { index: self.start + self.current_frame, flip_x: self.flip_x }
    }
}

/// Lets `delta` nanoseconds pass for one animated sprite: the clip takes the
/// frame steps that fall due, and if it took any, the sprite shows the clip's
/// new frame with the clip's mirroring. Otherwise the sprite stays as it is.
pub fn animate_sprites(sprite: &mut SpriteFrame, animation: &mut Animation, delta: u64)
    ensures
        final(animation)@ == old(animation)@.advance(delta as nat),
        *final(sprite) == if old(animation)@.state == AnimationState::Playing && old(
            animation,
        )@.steps_due(delta as nat) > 0 {
            final(animation)@.shown()
        } else {
            *old(sprite)
        },
{
    if animation.advance(delta) {
        *sprite = animation.shown();
    }
}

} // verus!
