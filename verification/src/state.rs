//! The stroke accumulator: a point sequence grown by intents, a
//! drawing flag, and a render cache that always mirrors the stroke.

use vstd::prelude::*;
use crate::geometry::{Point, PathCommand, polyline_of, build_polyline, copy_path};
use crate::input::Intent;

verus! {

/// What the host must do after an intent was applied: keep running, or
/// terminate the process.
#[derive(Clone, Copy, PartialEq, Eq, Structural, Debug)]
pub enum Action {
    Continue,
    Quit,
}

/// Memoized path geometry; empty after an invalidation, filled again by
/// the next render.
#[derive(Debug)]
struct RenderCache {
    geometry: Option<Vec<PathCommand>>,
}

impl RenderCache {
    /// The cached geometry, if the cache is filled.
    closed spec fn contents(self) -> Option<Seq<PathCommand>> {
        match self.geometry {
            Some(g) => Some(g@),
            None => None,
        }
    }
}

/// One step of the accumulator's transition relation: the stroke and
/// the drawing flag after `intent` hits the pair `(stroke, drawing)`.
/// A start always records its point and activates drawing; an extend
/// records its point only while drawing; an end deactivates drawing and
/// keeps every point; a clear empties the stroke and deactivates; a
/// quit leaves the pair untouched (the process ends instead).
pub open spec fn step(stroke: Seq<Point>, drawing: bool, intent: Intent) -> (Seq<Point>, bool) {
    match intent {
        Intent::Start(p) => (stroke.push(p), true),
        Intent::Extend(p) => if drawing {
            (stroke.push(p), true)
        } else {
            (stroke, false)
        },
        Intent::End => (stroke, false),
        Intent::Clear => (Seq::empty(), false),
        Intent::Quit => (stroke, drawing),
    }
}

/// The accumulator. It owns the stroke exclusively; the renderer only
/// reads it through the cache.
#[derive(Debug)]
pub struct State {
    positions: Vec<Point>,
    drawing: bool,
    cache: RenderCache,
}

impl State {
    /// The recorded stroke, in insertion order.
    pub closed spec fn stroke(self) -> Seq<Point> {
        self.positions@
    }

    /// Whether a stroke is active (between a start and an end intent).
    pub closed spec fn drawing(self) -> bool {
        self.drawing
    }

    /// The cached geometry, if the cache is filled.
    pub closed spec fn cached(self) -> Option<Seq<PathCommand>> {
        self.cache.contents()
    }

    /// Well-formedness: a filled cache holds exactly the geometry of
    /// the current stroke, so no render can ever show stale geometry.
    pub open spec fn wf(self) -> bool {
        self.cached() matches Some(g) ==> g == polyline_of(self.stroke())
    }

    /// A fresh accumulator: empty stroke, idle, empty cache.
    pub fn new() -> (s: State)
        ensures
            s.wf(),
            s.stroke() == Seq::<Point>::empty(),
            !s.drawing(),
            s.cached() is None,
    {
        State { positions: Vec::new(), drawing: false, cache: RenderCache { geometry: None } }
    }

    /// Apply one intent. The stroke and the drawing flag move along the
    /// transition relation `step`; every mutation of the stroke empties
    /// the cache before the next render can read it; the returned
    /// action tells the host to terminate exactly on a quit intent.
    pub fn apply(&mut self, intent: Intent) -> (act: Action)
        requires
            old(self).wf(),
        ensures
            final(self).wf(),
            (final(self).stroke(), final(self).drawing()) == step(
                old(self).stroke(),
                old(self).drawing(),
                intent,
            ),
            act == (if intent is Quit {
                Action::Quit
            } else {
                Action::Continue
            }),
            match intent {
                Intent::Start(_) => final(self).cached() is None,
                Intent::Extend(_) => if old(self).drawing() {
                    final(self).cached() is None
                } else {
                    final(self).cached() == old(self).cached()
                },
                Intent::End => final(self).cached() == old(self).cached(),
                Intent::Clear => final(self).cached() is None,
                Intent::Quit => final(self).cached() == old(self).cached(),
            },
    {
        match intent {
            Intent::Start(p) => {
                self.positions.push(p);
                self.cache.geometry = None;
                self.drawing = true;
                Action::Continue
            },
            Intent::Extend(p) => {
                if self.drawing {
                    self.positions.push(p);
                    self.cache.geometry = None;
                }
                Action::Continue
            },
            Intent::End => {
                self.drawing = false;
                Action::Continue
            },
            Intent::Clear => {
                self.positions = Vec::new();
                self.cache.geometry = None;
                self.drawing = false;
                Action::Continue
            },
            Intent::Quit => Action::Quit,
        }
    }

    /// Produce the drawable path for the current stroke, reusing the
    /// cache when it is filled and filling it otherwise. The result
    /// always reflects the stroke as it stands now; a stroke of fewer
    /// than two points yields no geometry.
    pub fn render(&mut self) -> (path: Vec<PathCommand>)
        requires
            old(self).wf(),
        ensures
            final(self).wf(),
            path@ == polyline_of(old(self).stroke()),
            old(self).stroke().len() < 2 ==> path@.len() == 0,
            final(self).stroke() == old(self).stroke(),
            final(self).drawing() == old(self).drawing(),
            final(self).cached() == Some(path@),
    {
        if let Some(g) = &self.cache.geometry {
            return copy_path(g);
        }
        let path = build_polyline(&self.positions);
        self.cache.geometry = Some(copy_path(&path));
        path
    }

    /// The points of the current stroke, in insertion order.
    pub fn points(&self) -> (ps: &Vec<Point>)
        ensures
            ps@ == self.stroke(),
    {
        &self.positions
    }

    /// Whether a stroke is active.
    pub fn is_drawing(&self) -> (b: bool)
        ensures
            b == self.drawing(),
    {
        self.drawing
    }
}

} // verus!
