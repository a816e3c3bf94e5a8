//! The drawable composition model.
//!
//! A drawable either replays raw path events, or wraps exactly one inner
//! drawable and tags how its geometry is committed: as a fill, or as a
//! stroke at a given thickness. Composition is single-level: one terminal
//! style per draw call. Nesting one terminal decorator inside another is
//! unsupported; the canvas rejects it at draw time.
//!
//! Coordinates are plain integers in a fixed device unit; the rendering
//! backend owns any conversion into its own floating-point space.

use vstd::prelude::*;

use crate::canvas::{Canvas, CanvasView, CommitKind, EntryView, committed, with_event,
    with_thickness};

verus! {

/// A point in the sketch's coordinate space.
#[derive(Clone, Copy, Debug, PartialEq, Eq, Structural)]
pub struct Point {
    pub x: i64,
    pub y: i64,
}

/// One event of a path: the atomic steps a path-building surface replays.
#[derive(Clone, Copy, Debug, PartialEq, Eq, Structural)]
pub enum PathEvent {
    MoveTo(Point),
    LineTo(Point),
    /// Quadratic curve: control point, then end point.
    QuadraticTo(Point, Point),
    /// Cubic curve: two control points, then end point.
    CubicTo(Point, Point, Point),
    Close,
}

/// A type that can be represented on a `Canvas`.
pub trait Paint {
    /// The canvas this drawable leaves behind, as a function of the canvas
    /// it is painted onto.
    spec fn apply(&self, c: CanvasView) -> CanvasView;

    /// Painting never disturbs what is already committed: the old queue is
    /// a prefix of the new one.
    proof fn apply_appends(&self, c: CanvasView)
        ensures
            c.queue.is_prefix_of(self.apply(c).queue),
    ;

    /// Paints self in the composition.
    fn paint(&self, canvas: &mut Canvas)
        ensures
            final(canvas)@ == self.apply(old(canvas)@),
    ;
}

/// An explicit sequence of path events: the raw drawable. Replaying it is
/// restartable — painting it twice replays the identical events twice.
#[derive(Clone, Debug, PartialEq, Eq)]
pub struct RawPath {
    pub events: Vec<PathEvent>,
}

impl Paint for RawPath {
    open spec fn apply(&self, c: CanvasView) -> CanvasView {
        CanvasView { path: c.path + self.events@, ..c }
    }

    proof fn apply_appends(&self, c: CanvasView) {
        assert(c.queue =~= self.apply(c).queue.subrange(0, c.queue.len() as int));
    }

    /// Replays each event onto the surface, one at a time, in order.
    fn paint(&self, canvas: &mut Canvas) {
        let ghost c0 = canvas@;
        let n = self.events.len();
        let mut i: usize = 0;
        while i < n
            invariant
                n == self.events.len(),
                i <= n,
                canvas@ == (CanvasView { path: c0.path + self.events@.take(i as int), ..c0 }),
            decreases n - i,
        {
            let ghost before = canvas@;
            let e = self.events[i];
            match e {
                PathEvent::MoveTo(p) => canvas.move_to(p),
                PathEvent::LineTo(p) => canvas.line_to(p),
                PathEvent::QuadraticTo(ctrl, to) => canvas.quadratic_to(ctrl, to),
                PathEvent::CubicTo(c1, c2, to) => canvas.cubic_to(c1, c2, to),
                PathEvent::Close => canvas.close(),
            }
            proof {
                assert(canvas@ == with_event(before, e));
                assert(self.events@.take(i + 1) =~= self.events@.take(i as int).push(e));
                assert(c0.path + self.events@.take(i + 1) =~= (c0.path + self.events@.take(
                    i as int,
                )).push(e));
                assert(canvas@ =~= (CanvasView { path: c0.path + self.events@.take(i + 1), ..c0 }));
            }
            i += 1;
        }
        proof {
            assert(self.events@.take(n as int) =~= self.events@);
            assert(canvas@ =~= self.apply(c0));
        }
    }
}

/// Paints its inner drawable, then issues exactly one fill commit.
pub struct Filled<D>(pub D);

impl<D: Paint> Paint for Filled<D> {
    open spec fn apply(&self, c: CanvasView) -> CanvasView {
        committed(self.0.apply(c), CommitKind::Fill)
    }

    proof fn apply_appends(&self, c: CanvasView) {
        self.0.apply_appends(c);
        let inner = self.0.apply(c);
        assert(c.queue =~= self.apply(c).queue.subrange(0, c.queue.len() as int));
    }

    fn paint(&self, canvas: &mut Canvas) {
        self.0.paint(canvas);
        canvas.fill();
    }
}

/// Paints its inner drawable, sets the active stroke thickness, then issues
/// exactly one stroke commit at that thickness.
pub struct Stroked<D> {
    pub element: D,
    pub thickness: u32,
}

impl<D: Paint> Paint for Stroked<D> {
    open spec fn apply(&self, c: CanvasView) -> CanvasView {
        committed(
            with_thickness(self.element.apply(c), self.thickness),
            CommitKind::Stroke(self.thickness),
        )
    }

    proof fn apply_appends(&self, c: CanvasView) {
        self.element.apply_appends(c);
        assert(c.queue =~= self.apply(c).queue.subrange(0, c.queue.len() as int));
    }

    fn paint(&self, canvas: &mut Canvas) {
        self.element.paint(canvas);
        canvas.set_stroke_thickness(self.thickness);
        canvas.stroke();
    }
}

/// Law: filling a raw geometry appends exactly one entry — a fill of that
/// geometry under the active style — and commits no stroke, leaving every
/// earlier entry and the active thickness in place.
pub proof fn lemma_filled_single_fill(p: RawPath, c: CanvasView)
    ensures
        Filled(p).apply(c).queue == c.queue.push(
            EntryView { style: c.style, kind: CommitKind::Fill, path: c.path + p.events@ },
        ),
        Filled(p).apply(c).thickness == c.thickness,
        Filled(p).apply(c).path == Seq::<PathEvent>::empty(),
{
}

/// Law: stroking a raw geometry at thickness `t` sets the active thickness
/// to `t` and appends exactly one entry — a stroke of that geometry at `t`
/// under the active style — committing no fill and leaving every earlier
/// entry in place.
pub proof fn lemma_stroked_single_stroke(p: RawPath, t: u32, c: CanvasView)
    ensures
        (Stroked { element: p, thickness: t }).apply(c).queue == c.queue.push(
            EntryView { style: c.style, kind: CommitKind::Stroke(t), path: c.path + p.events@ },
        ),
        (Stroked { element: p, thickness: t }).apply(c).thickness == t,
{
}

} // verus!
