//! The per-frame draw queue and the path-building surface.
//!
//! A `Canvas` lives for one frame. Drawables replay path events onto it and
//! commit the built path under a terminal style (a fill, or a stroke at the
//! active thickness); each commit appends one entry to the queue. The queue
//! is drained exactly once, in insertion order, and insertion order is the
//! only ordering in the system: later entries render above earlier ones.

use vstd::prelude::*;

use crate::paint::{Paint, PathEvent, Point};
use crate::sketch::SketchError;

verus! {

/// A reference to a rendering style owned by the backend (a shader handle).
#[derive(Clone, Copy, Debug, PartialEq, Eq, Structural)]
pub struct Style {
    pub id: u32,
}

/// The terminal style of one committed geometry.
#[derive(Clone, Copy, Debug, PartialEq, Eq, Structural)]
pub enum CommitKind {
    /// The path is committed as a filled region.
    Fill,
    /// The path is committed as a stroked outline at the given thickness.
    Stroke(u32),
}

/// One committed (style, geometry) pair of the draw queue.
#[derive(Clone, Debug, PartialEq, Eq)]
pub struct Entry {
    pub style: Style,
    pub kind: CommitKind,
    pub path: Vec<PathEvent>,
}

/// The mathematical value of an `Entry`.
#[verifier::ext_equal]
pub struct EntryView {
    pub style: Style,
    pub kind: CommitKind,
    pub path: Seq<PathEvent>,
}

impl View for Entry {
    type V = EntryView;

    open spec fn view(&self) -> EntryView {
        EntryView { style: self.style, kind: self.kind, path: self.path@ }
    }
}

/// The mathematical value of a `Canvas`: the committed queue, the path under
/// construction, the active stroke thickness, and the active style.
#[verifier::ext_equal]
pub struct CanvasView {
    pub queue: Seq<EntryView>,
    pub path: Seq<PathEvent>,
    pub thickness: u32,
    pub style: Style,
}

/// The value of a queue of entries.
pub open spec fn queue_view(q: Seq<Entry>) -> Seq<EntryView> {
    q.map_values(|e: Entry| e@)
}

/// The canvas after one path event is replayed onto it.
pub open spec fn with_event(c: CanvasView, e: PathEvent) -> CanvasView {
    CanvasView { path: c.path.push(e), ..c }
}

/// The canvas after the active stroke thickness is set.
pub open spec fn with_thickness(c: CanvasView, t: u32) -> CanvasView {
    CanvasView { thickness: t, ..c }
}

/// The canvas after the built path is committed under the given terminal
/// style: one entry is appended and the path surface is left empty.
pub open spec fn committed(c: CanvasView, k: CommitKind) -> CanvasView {
    CanvasView {
        queue: c.queue.push(EntryView { style: c.style, kind: k, path: c.path }),
        path: Seq::empty(),
        ..c
    }
}

/// The canvas at the start of a draw call: a fresh path surface under the
/// call's style, over the queue as it stands.
pub open spec fn started(c: CanvasView, style: Style) -> CanvasView {
    CanvasView { path: Seq::empty(), style, ..c }
}

/// The per-frame draw queue together with its path-building surface.
pub struct Canvas {
    queue: Vec<Entry>,
    path: Vec<PathEvent>,
    thickness: u32,
    style: Style,
}

impl View for Canvas {
    type V = CanvasView;

    closed spec fn view(&self) -> CanvasView {
        CanvasView {
            queue: queue_view(self.queue@),
            path: self.path@,
            thickness: self.thickness,
            style: self.style,
        }
    }
}

impl Canvas {
    /// A fresh canvas: empty queue, empty path, thickness and style unset.
    pub fn new() -> (r: Canvas)
        ensures
            r@ == (CanvasView {
                queue: Seq::empty(),
                path: Seq::empty(),
                thickness: 0u32,
                style: Style { id: 0 },
            }),
    {
        let r = Canvas {
            queue: Vec::new(),
            path: Vec::new(),
            thickness: 0,
            style: Style { id: 0 },
        };
        proof {
            assert(r@ =~= (CanvasView {
                queue: Seq::empty(),
                path: Seq::empty(),
                thickness: 0u32,
                style: Style { id: 0 },
            }));
        }
        r
    }

    /// Begins a new subpath at the given point.
    pub fn move_to(&mut self, p: Point)
        ensures
            final(self)@ == with_event(old(self)@, PathEvent::MoveTo(p)),
    {
        self.path.push(PathEvent::MoveTo(p));
        proof {
            assert(self@ =~= with_event(old(self)@, PathEvent::MoveTo(p)));
        }
    }

    /// Extends the path with a straight segment to the given point.
    pub fn line_to(&mut self, p: Point)
        ensures
            final(self)@ == with_event(old(self)@, PathEvent::LineTo(p)),
    {
        self.path.push(PathEvent::LineTo(p));
        proof {
            assert(self@ =~= with_event(old(self)@, PathEvent::LineTo(p)));
        }
    }

    /// Extends the path with a quadratic curve.
    pub fn quadratic_to(&mut self, ctrl: Point, to: Point)
        ensures
            final(self)@ == with_event(old(self)@, PathEvent::QuadraticTo(ctrl, to)),
    {
        self.path.push(PathEvent::QuadraticTo(ctrl, to));
        proof {
            assert(self@ =~= with_event(old(self)@, PathEvent::QuadraticTo(ctrl, to)));
        }
    }

    /// Extends the path with a cubic curve.
    pub fn cubic_to(
        &mut self,
        ctrl1: Point,
        ctrl2: Point,
        to: Point,
    )
        ensures
            final(self)@ == with_event(old(self)@, PathEvent::CubicTo(ctrl1, ctrl2, to)),
    {
        self.path.push(PathEvent::CubicTo(ctrl1, ctrl2, to));
        proof {
            assert(self@ =~= with_event(old(self)@, PathEvent::CubicTo(ctrl1, ctrl2, to)));
        }
    }

    /// Closes the current subpath.
    pub fn close(&mut self)
        ensures
            final(self)@ == with_event(old(self)@, PathEvent::Close),
    {
        self.path.push(PathEvent::Close);
        proof {
            assert(self@ =~= with_event(old(self)@, PathEvent::Close));
        }
    }

    /// Sets the active stroke thickness for later stroke commits.
    pub fn set_stroke_thickness(&mut self, t: u32)
        ensures
            final(self)@ == with_thickness(old(self)@, t),
    {
        self.thickness = t;
        proof {
            assert(self@ =~= with_thickness(old(self)@, t));
        }
    }

    /// Commits the built path as a filled region under the active style.
    pub fn fill(&mut self)
        ensures
            final(self)@ == committed(old(self)@, CommitKind::Fill),
    {
        let path = self.path.split_off(0);
        let entry = Entry { style: self.style, kind: CommitKind::Fill, path };
        self.queue.push(entry);
        proof {
            assert(entry@.path =~= old(self)@.path);
            assert(forall|i: int|
                0 <= i < old(self).queue@.len() ==> self.queue@[i] == old(self).queue@[i]);
            assert(queue_view(self.queue@) =~= committed(old(self)@, CommitKind::Fill).queue);
            assert(self@ =~= committed(old(self)@, CommitKind::Fill));
        }
    }

    /// Commits the built path as a stroked outline at the active thickness,
    /// under the active style.
    pub fn stroke(&mut self)
        ensures
            final(self)@ == committed(old(self)@, CommitKind::Stroke(old(self)@.thickness)),
    {
        let path = self.path.split_off(0);
        let entry = Entry { style: self.style, kind: CommitKind::Stroke(self.thickness), path };
        self.queue.push(entry);
        proof {
            assert(entry@.path =~= old(self)@.path);
            assert(forall|i: int|
                0 <= i < old(self).queue@.len() ==> self.queue@[i] == old(self).queue@[i]);
            assert(queue_view(self.queue@) =~= committed(
                old(self)@,
                CommitKind::Stroke(old(self)@.thickness),
            ).queue);
            assert(self@ =~= committed(old(self)@, CommitKind::Stroke(old(self)@.thickness)));
        }
    }

    /// Draws one drawable under one style: replays it onto a fresh path
    /// surface and accepts the result only if it committed exactly one
    /// terminal style. A drawable that commits none is rejected with
    /// `NoStyle`; one that commits more than one (a fill nested in a stroke,
    /// or the reverse) is rejected with `NestedStyle`, and the queue is left
    /// as it was.
    pub fn draw<D: Paint>(&mut self, style: Style, d: &D) -> (r: Result<(), SketchError>)
        ensures
            ({
                let applied = d.apply(started(old(self)@, style));
                match r {
                    Ok(()) => {
                        &&& applied.queue.len() == old(self)@.queue.len() + 1
                        &&& final(self)@ == applied
                    },
                    Err(e) => {
                        &&& applied.queue.len() != old(self)@.queue.len() + 1
                        &&& final(self)@.queue == old(self)@.queue
                        &&& (e == SketchError::NoStyle <==> applied.queue.len() == old(
                            self,
                        )@.queue.len())
                        &&& (e == SketchError::NoStyle || e == SketchError::NestedStyle)
                    },
                }
            }),
    {
        let ghost c0 = started(old(self)@, style);
        let qlen = self.queue.len();
        self.path.clear();
        self.style = style;
        proof {
            assert(self@ =~= c0);
        }
        d.paint(self);
        proof {
            d.apply_appends(c0);
        }
        if self.queue.len() <= qlen {
            proof {
                assert(self@.queue == d.apply(c0).queue);
                assert(self@.queue.len() == self.queue.len());
                assert(self@.queue =~= old(self)@.queue);
            }
            Err(SketchError::NoStyle)
        } else if self.queue.len() == qlen + 1 {
            Ok(())
        } else {
            let ghost painted = self.queue@;
            self.queue.truncate(qlen);
            proof {
                assert(self.queue@ =~= painted.subrange(0, qlen as int));
                assert(queue_view(self.queue@) =~= old(self)@.queue);
            }
            Err(SketchError::NestedStyle)
        }
    }

    /// Returns every queued entry, in exact commit order, leaving the queue
    /// empty: a second drain of the same canvas yields nothing.
    pub fn drain(&mut self) -> (r: Vec<Entry>)
        ensures
            queue_view(r@) == old(self)@.queue,
            final(self)@ == (CanvasView { queue: Seq::empty(), ..old(self)@ }),
    {
        let r = self.queue.split_off(0);
        proof {
            assert(queue_view(r@) =~= old(self)@.queue);
            assert(self@ =~= (CanvasView { queue: Seq::empty(), ..old(self)@ }));
        }
        r
    }
}

} // verus!
