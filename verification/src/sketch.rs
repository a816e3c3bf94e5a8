//! The frame-execution runtime: configuration, run context, the sketch and
//! seed contracts, and the per-frame state machine.
//!
//! A `Run` owns the context and the current sketch value and advances one
//! frame at a time. The caller's loop blocks on its input source, hands each
//! event batch to `Run::frame`, submits the returned entries to its
//! rendering backend in order, honours the capture directive, and paces the
//! loop; it stops when the run terminates or the input source closes.

use vstd::prelude::*;

use crate::canvas::Canvas;
use crate::rng::{random_seed, rng_from_seed, rng_stream, seed_stream};

verus! {

/// The single fatal-failure channel of a run: any failure ends the run and
/// is handed to the caller as the run's result.
#[derive(Clone, Copy, Debug, PartialEq, Eq, Structural)]
pub enum SketchError {
    /// A drawable committed no terminal style during a draw call.
    NoStyle,
    /// A drawable committed more than one terminal style during a draw
    /// call: one terminal decorator was nested inside another.
    NestedStyle,
    /// A sketch, seed, or backend step failed fatally.
    Aborted,
}

/// One input event handed to the runtime. The runtime interprets only the
/// reseed character; every other event passes through to the sketch's step
/// uninterpreted.
#[derive(Clone, Copy, Debug, PartialEq, Eq, Structural)]
pub enum InputEvent {
    /// A character received from the input source.
    Character(char),
    /// Any other event of the input source.
    Other,
}

/// Whether a batch contains the distinguished reseed input.
pub open spec fn spec_has_reseed(events: Seq<InputEvent>) -> bool {
    exists|i: int| 0 <= i < events.len() && events[i] == InputEvent::Character('r')
}

/// Scans a batch for the distinguished reseed input.
pub fn has_reseed(events: &Vec<InputEvent>) -> (r: bool)
    ensures
        r == spec_has_reseed(events@),
{
    let n = events.len();
    let mut i: usize = 0;
    while i < n
        invariant
            n == events.len(),
            i <= n,
            forall|j: int| 0 <= j < i ==> events@[j] != InputEvent::Character('r'),
        decreases n - i,
    {
        match events[i] {
            InputEvent::Character(c) => {
                if c == 'r' {
                    return true;
                }
            },
            InputEvent::Other => {},
        }
        i += 1;
    }
    false
}

/// The read-only configuration of a run.
pub struct SketchCfg {
    /// The backend's target surface size; positive.
    pub size: u32,
    /// Where captured frames go: a directory per seed under this root.
    /// `None` switches capture off.
    pub root_frame_filename: Option<String>,
    /// The seed of the run; absent, a random seed is drawn once at start.
    pub seed: Option<u64>,
}

/// The mutable per-run state: configuration, frame counter, generator and
/// current seed. The generator and the seed are replaced wholesale on
/// reseed, never partially updated.
pub struct SketchContext {
    pub cfg: SketchCfg,
    /// Index of the frame about to be drawn; starts at 0, increases by
    /// exactly 1 per completed frame, and resets to 0 only on reseed.
    pub frame: u64,
    pub rng: rand::rngs::StdRng,
    pub current_seed: u64,
}

impl SketchContext {
    /// The context is coherent: its generator is exactly the one its
    /// current seed yields.
    pub open spec fn wf(&self) -> bool {
        rng_stream(self.rng) == seed_stream(self.current_seed)
    }
}

/// The reseed contract: produces the sketch value a fresh run of the given
/// context starts from. A type with a canonical default value typically
/// resets to that default, ignoring the context; a sketch wanting seed- or
/// context-dependent initialization reads the context's generator and seed.
pub trait Seed: Sized {
    fn seed(self, ctx: &SketchContext) -> Result<Self, SketchError>;
}

/// The user algorithm: draws one frame's canvas from the context, and steps
/// to the next state.
pub trait Sketch: Seed {
    /// Builds this frame's canvas.
    fn draw(&self, ctx: &SketchContext) -> Result<Canvas, SketchError>;

    /// Advances to the next frame's state; `None` terminates the run. When
    /// not overridden it continues unchanged, so the run ends only when the
    /// input source closes.
    fn step(self, ctx: &SketchContext, events: Vec<InputEvent>) -> Result<
        Option<Self>,
        SketchError,
    > {
        step_continue(self)
    }
}

/// Law: the default step never terminates the run on its own — it returns
/// the very sketch it was given, as a continuation.
pub fn step_continue<S: Sized>(s: S) -> (r: Result<Option<S>, SketchError>)
    ensures
        r == Ok::<Option<S>, SketchError>(Some(s)),
{
    Ok(Some(s))
}

/// The non-randomized reseed fallback, for sketch types that declare a
/// canonical default construction: resets to that default, ignoring the
/// context, and never fails. A sketch wanting seed- or context-dependent
/// reinitialization implements its reseed explicitly instead.
pub fn seed_to_default<S: core::default::Default>(_ctx: &SketchContext) -> (r: Result<
    S,
    SketchError,
>)
    ensures
        r is Ok,
{
    Ok(S::default())
}

/// The capture directive of one frame: the caller persists the frame under
/// `{capture root}/{seed}/`, indexed by the frame counter.
#[derive(Clone, Copy, Debug, PartialEq, Eq, Structural)]
pub struct Capture {
    pub seed: u64,
    pub frame: u64,
}

/// What one completed frame hands back to the caller's loop.
#[derive(Clone, Debug, PartialEq, Eq)]
pub struct FrameOutput {
    /// The index this frame was drawn at.
    pub frame_index: u64,
    /// The drained draw queue, in commit order; later entries render above
    /// earlier ones.
    pub entries: Vec<crate::canvas::Entry>,
    /// `Some` iff capture is configured.
    pub capture: Option<Capture>,
}

/// The frame-execution state machine: running while it holds a current
/// sketch value, terminated once the sketch's step yields no continuation
/// or a frame fails.
pub struct Run<S> {
    pub context: SketchContext,
    /// The single owned slot holding the current sketch state; each step
    /// overwrites it in full.
    pub current: Option<S>,
}

impl<S: Sketch> Run<S> {
    /// The run accepts further frames.
    pub open spec fn is_running(&self) -> bool {
        self.current is Some
    }

    /// Whether the run accepts further frames.
    pub fn running(&self) -> (r: bool)
        ensures
            r == self.is_running(),
    {
        self.current.is_some()
    }

    /// Starts a run: the seed is the configured one, or drawn at random
    /// when none is configured; the generator is seeded from it; the frame
    /// counter starts at 0.
    pub fn new(cfg: SketchCfg, sketch: S) -> (r: Run<S>)
        requires
            cfg.size >= 1,
        ensures
            r.context.cfg == cfg,
            r.context.frame == 0,
            r.context.wf(),
            r.current == Some(sketch),
            cfg.seed is Some ==> r.context.current_seed == cfg.seed.unwrap(),
    {
        let current_seed = match cfg.seed {
            Some(s) => s,
            None => random_seed(),
        };
        let rng = rng_from_seed(current_seed);
        Run { context: SketchContext { cfg, frame: 0, rng, current_seed }, current: Some(sketch) }
    }

    /// Executes one frame against a batch of input events.
    ///
    /// If the batch holds the reseed input, a fresh seed is drawn —
    /// independent of the current one — the generator is reseeded from it,
    /// the frame counter resets to 0 and the sketch is reinitialized. The
    /// sketch then draws; the drained queue, the frame's index and the
    /// capture directive are returned; the sketch steps to its next state
    /// (or terminates the run); and the frame counter increases by exactly
    /// one. Every failure is fatal: the run terminates and the error is the
    /// result.
    pub fn frame(&mut self, events: Vec<InputEvent>) -> (r: Result<FrameOutput, SketchError>)
        requires
            old(self).is_running(),
            old(self).context.frame < u64::MAX,
        ensures
            final(self).context.cfg == old(self).context.cfg,
            match r {
                Ok(out) => {
                    &&& out.frame_index == (if spec_has_reseed(events@) {
                        0u64
                    } else {
                        old(self).context.frame
                    })
                    &&& final(self).context.frame == out.frame_index + 1
                    &&& (!spec_has_reseed(events@) ==> final(self).context.current_seed == old(
                        self,
                    ).context.current_seed && final(self).context.rng == old(self).context.rng)
                    &&& (spec_has_reseed(events@) ==> final(self).context.wf())
                    &&& out.capture == (if old(self).context.cfg.root_frame_filename is Some {
                        Some(
                            Capture {
                                seed: final(self).context.current_seed,
                                frame: out.frame_index,
                            },
                        )
                    } else {
                        None::<Capture>
                    })
                    &&& (old(self).context.wf() ==> final(self).context.wf())
                },
                Err(_) => !final(self).is_running(),
            },
    {
        if has_reseed(&events) {
            let fresh = random_seed();
            self.context.current_seed = fresh;
            self.context.rng = rng_from_seed(fresh);
            self.context.frame = 0;
            let cur = match self.current.take() {
                Some(c) => c,
                None => vstd::pervasive::unreached(),
            };
            match cur.seed(&self.context) {
                Ok(c) => {
                    self.current = Some(c);
                },
                Err(e) => {
                    return Err(e);
                },
            }
        }
        let drawn = match &self.current {
            Some(c) => c.draw(&self.context),
            None => vstd::pervasive::unreached(),
        };
        let mut canvas = match drawn {
            Ok(c) => c,
            Err(e) => {
                self.current = None;
                return Err(e);
            },
        };
        let entries = canvas.drain();
        let frame_index = self.context.frame;
        let cur = match self.current.take() {
            Some(c) => c,
            None => vstd::pervasive::unreached(),
        };
        match cur.step(&self.context, events) {
            Ok(next) => {
                self.current = next;
            },
            Err(e) => {
                return Err(e);
            },
        }
        let capture = if self.context.cfg.root_frame_filename.is_some() {
            Some(Capture { seed: self.context.current_seed, frame: frame_index })
        } else {
            None
        };
        self.context.frame = frame_index + 1;
        Ok(FrameOutput { frame_index, entries, capture })
    }
}

/// Law: the run's randomness is a function of its seed — two coherent
/// contexts carrying the same current seed carry generators in the same
/// state, so sketches that are pure functions of the context reproduce the
/// same draws.
pub proof fn lemma_fixed_seed_reproducible(a: SketchContext, b: SketchContext)
    requires
        a.wf(),
        b.wf(),
        a.current_seed == b.current_seed,
    ensures
        rng_stream(a.rng) == rng_stream(b.rng),
{
}

} // verus!
