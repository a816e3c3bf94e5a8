use rand::RngCore;
use valora::canvas::{Canvas, Entry, Style};
use valora::paint::{Filled, PathEvent, Point, RawPath, Stroked};
use valora::sketch::{
    has_reseed, seed_to_default, step_continue, Capture, InputEvent, Run, Seed, Sketch, SketchCfg,
    SketchContext, SketchError,
};

fn cfg(seed: Option<u64>) -> SketchCfg {
    SketchCfg { size: 400, root_frame_filename: None, seed }
}

fn square_events() -> Vec<PathEvent> {
    vec![
        PathEvent::MoveTo(Point { x: 0, y: 0 }),
        PathEvent::LineTo(Point { x: 10, y: 0 }),
        PathEvent::LineTo(Point { x: 10, y: 10 }),
        PathEvent::LineTo(Point { x: 0, y: 10 }),
        PathEvent::Close,
    ]
}

/// Draws one constant filled square; step is never overridden.
struct SquareSketch;

impl Seed for SquareSketch {
    fn seed(self, _ctx: &SketchContext) -> Result<Self, SketchError> {
        Ok(SquareSketch)
    }
}

impl Sketch for SquareSketch {
    fn draw(&self, _ctx: &SketchContext) -> Result<Canvas, SketchError> {
        let mut canvas = Canvas::new();
        canvas.draw(Style { id: 1 }, &Filled(RawPath { events: square_events() }))?;
        Ok(canvas)
    }
}

/// Draws a stroke whose endpoint comes from the context's generator and
/// whose thickness comes from the frame counter: a pure function of
/// (frame, rng draws).
struct NoiseSketch;

impl Seed for NoiseSketch {
    fn seed(self, _ctx: &SketchContext) -> Result<Self, SketchError> {
        Ok(NoiseSketch)
    }
}

impl Sketch for NoiseSketch {
    fn draw(&self, ctx: &SketchContext) -> Result<Canvas, SketchError> {
        let mut rng = ctx.rng.clone();
        let x = (rng.next_u64() % 1000) as i64;
        let y = (rng.next_u64() % 1000) as i64;
        let mut canvas = Canvas::new();
        let line = Stroked {
            element: RawPath {
                events: vec![
                    PathEvent::MoveTo(Point { x: ctx.frame as i64, y: 0 }),
                    PathEvent::LineTo(Point { x, y }),
                ],
            },
            thickness: ctx.frame as u32 + 1,
        };
        canvas.draw(Style { id: 2 }, &line)?;
        Ok(canvas)
    }
}

/// Terminates itself once its countdown reaches zero; reseeding resets it
/// to its default, the spent countdown.
#[derive(Default)]
struct Countdown(u64);

impl Seed for Countdown {
    fn seed(self, ctx: &SketchContext) -> Result<Self, SketchError> {
        seed_to_default(ctx)
    }
}

impl Sketch for Countdown {
    fn draw(&self, _ctx: &SketchContext) -> Result<Canvas, SketchError> {
        Ok(Canvas::new())
    }

    fn step(
        self,
        _ctx: &SketchContext,
        _events: Vec<InputEvent>,
    ) -> Result<Option<Self>, SketchError> {
        if self.0 == 0 {
            Ok(None)
        } else {
            Ok(Some(Countdown(self.0 - 1)))
        }
    }
}

/// Fails every draw.
struct FailingDraw;

impl Seed for FailingDraw {
    fn seed(self, _ctx: &SketchContext) -> Result<Self, SketchError> {
        Ok(FailingDraw)
    }
}

impl Sketch for FailingDraw {
    fn draw(&self, _ctx: &SketchContext) -> Result<Canvas, SketchError> {
        Err(SketchError::Aborted)
    }
}

/// Fails every reseed.
struct FailingSeed;

impl Seed for FailingSeed {
    fn seed(self, _ctx: &SketchContext) -> Result<Self, SketchError> {
        Err(SketchError::Aborted)
    }
}

impl Sketch for FailingSeed {
    fn draw(&self, _ctx: &SketchContext) -> Result<Canvas, SketchError> {
        Ok(Canvas::new())
    }
}

fn queues_of<S: Sketch>(seed: u64, frames: usize, sketch: S) -> Vec<Vec<Entry>> {
    let mut run = Run::new(cfg(Some(seed)), sketch);
    let mut queues = Vec::new();
    for _ in 0..frames {
        assert!(run.running());
        let out = run.frame(vec![]).unwrap();
        queues.push(out.entries);
    }
    queues
}

#[test]
fn determinism_fixed_seed_identical_queues() {
    let a = queues_of(7, 5, NoiseSketch);
    let b = queues_of(7, 5, NoiseSketch);
    assert_eq!(a, b);
}

#[test]
fn different_seeds_give_different_draws() {
    let a = queues_of(7, 1, NoiseSketch);
    let b = queues_of(8, 1, NoiseSketch);
    assert_ne!(a, b);
}

#[test]
fn reseed_resets_counting() {
    let mut run = Run::new(cfg(Some(42)), NoiseSketch);
    let first = run.frame(vec![]).unwrap();
    assert_eq!(first.frame_index, 0);
    let second = run.frame(vec![InputEvent::Other]).unwrap();
    assert_eq!(second.frame_index, 1);
    let third = run.frame(vec![InputEvent::Other, InputEvent::Character('r')]).unwrap();
    assert_eq!(third.frame_index, 0);
    assert_ne!(run.context.current_seed, 42);
    assert_eq!(run.context.frame, 1);
}

#[test]
fn default_step_never_terminates_on_its_own() {
    let mut run = Run::new(cfg(Some(1)), SquareSketch);
    for _ in 0..25 {
        assert!(run.running());
        run.frame(vec![]).unwrap();
    }
    assert!(run.running());
}

#[test]
fn end_to_end_constant_square() {
    let mut run = Run::new(
        SketchCfg { size: 400, root_frame_filename: None, seed: Some(42) },
        SquareSketch,
    );
    let mut queues = Vec::new();
    for _ in 0..3 {
        let out = run.frame(vec![]).unwrap();
        assert_eq!(out.capture, None);
        queues.push(out.entries);
    }
    assert_eq!(run.context.frame, 3);
    assert_eq!(run.context.current_seed, 42);
    assert_eq!(queues.len(), 3);
    for queue in &queues {
        assert_eq!(queue.len(), 1);
        assert_eq!(queue[0], queues[0][0]);
    }
}

#[test]
fn step_termination_ends_run() {
    let mut run = Run::new(cfg(Some(3)), Countdown(1));
    run.frame(vec![]).unwrap();
    assert!(run.running());
    run.frame(vec![]).unwrap();
    assert!(!run.running());
}

#[test]
fn draw_failure_is_fatal() {
    let mut run = Run::new(cfg(Some(3)), FailingDraw);
    assert_eq!(run.frame(vec![]), Err(SketchError::Aborted));
    assert!(!run.running());
}

#[test]
fn reseed_failure_is_fatal() {
    let mut run = Run::new(cfg(Some(3)), FailingSeed);
    let ok = run.frame(vec![]);
    assert!(ok.is_ok());
    let err = run.frame(vec![InputEvent::Character('r')]);
    assert_eq!(err, Err(SketchError::Aborted));
    assert!(!run.running());
}

#[test]
fn capture_directive_follows_configuration() {
    let mut run = Run::new(
        SketchCfg { size: 8, root_frame_filename: Some(String::from("frames")), seed: Some(9) },
        SquareSketch,
    );
    let out = run.frame(vec![]).unwrap();
    assert_eq!(out.capture, Some(Capture { seed: 9, frame: 0 }));
    let out = run.frame(vec![]).unwrap();
    assert_eq!(out.capture, Some(Capture { seed: 9, frame: 1 }));
}

#[test]
fn random_seed_drawn_when_unconfigured() {
    let a = Run::new(cfg(None), SquareSketch);
    let b = Run::new(cfg(None), SquareSketch);
    // Two unseeded runs almost surely disagree; equal seeds would mean the
    // seed were constant rather than drawn.
    assert_ne!(a.context.current_seed, b.context.current_seed);
    assert_eq!(a.context.frame, 0);
}

#[test]
fn reseed_detection_reads_the_distinguished_character() {
    assert!(!has_reseed(&vec![]));
    assert!(!has_reseed(&vec![InputEvent::Other, InputEvent::Character('x')]));
    assert!(has_reseed(&vec![InputEvent::Other, InputEvent::Character('r')]));
}

#[test]
fn reseed_resets_a_defaultable_sketch_to_its_default() {
    // A long countdown is cut short by a reseed: the default value is the
    // spent countdown, whose next step terminates the run.
    let mut run = Run::new(cfg(Some(3)), Countdown(1000));
    run.frame(vec![]).unwrap();
    assert!(run.running());
    run.frame(vec![InputEvent::Character('r')]).unwrap();
    assert!(!run.running());
}

#[test]
fn step_continue_returns_the_sketch_unchanged() {
    assert_eq!(step_continue(5u32), Ok(Some(5u32)));
}
