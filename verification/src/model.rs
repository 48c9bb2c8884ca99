//! The interaction model: nine control points, an optional selection, and
//! the viewport, driven by host events.
//!
//! Selection is toggled by clicks: a click with a selection held releases
//! it wherever it lands; a click with no selection held selects the first
//! point (in index order) within the hit radius, if any.  While a point is
//! selected, pointer movement drags that point and no other.

use crate::geom::Point;
use crate::geom::Viewport;
use crate::geom::MARGIN;
use crate::geom::MAX_DIM;
use vstd::prelude::*;

verus! {

/// Squared hit radius: a click selects a point within curve-space
/// distance `0.1`, which is `100` coordinate units, squared `10_000`.
pub const HIT_RADIUS_SQ: i64 = 10_000;

/// One host event, already carried into curve space where positional.
pub enum Msg {
    /// Pointer click at a curve-space position.
    Click(Point),
    /// Pointer movement to a curve-space position.
    MouseMove(Point),
    /// The host container was resized to the given pixel size.
    Resize(u32, u32),
    /// Animation-frame tick; drives a redraw and mutates nothing.
    Frame,
}

impl Msg {
    /// The bounds under which the model accepts the event.
    pub open spec fn valid(self) -> bool {
        match self {
            Msg::Click(pos) => pos.in_bounds(),
            Msg::MouseMove(pos) => pos.in_bounds(),
            Msg::Resize(w, h) => MARGIN < w <= MAX_DIM + MARGIN && MARGIN < h <= MAX_DIM + MARGIN,
            Msg::Frame => true,
        }
    }
}

/// Squared curve-space distance between two points.
pub open spec fn spec_dist_sq(a: Point, b: Point) -> int {
    (a.x - b.x) * (a.x - b.x) + (a.y - b.y) * (a.y - b.y)
}

/// Whether a click at `pos` hits the point `p`.
pub open spec fn spec_hit(p: Point, pos: Point) -> bool {
    spec_dist_sq(p, pos) < HIT_RADIUS_SQ
}

/// `sel` is the first index (in order 0..9) of a point hit by `pos`,
/// or `None` when no point is hit.
pub open spec fn spec_first_hit_is(points: Seq<Point>, pos: Point, sel: Option<usize>) -> bool {
    match sel {
        Some(p) => p < points.len() && spec_hit(points[p as int], pos) && (forall|q: int|
            0 <= q < p ==> !spec_hit(points[q], pos)),
        None => forall|q: int| 0 <= q < points.len() ==> !spec_hit(points[q], pos),
    }
}

/// Squared distance between two in-bounds points, exactly.
pub fn dist_sq(a: Point, b: Point) -> (r: i64)
    requires
        a.in_bounds(),
        b.in_bounds(),
    ensures
        r == spec_dist_sq(a, b),
{
    let dx: i64 = a.x - b.x;
    let dy: i64 = a.y - b.y;
    proof {
        assert(0 <= dx * dx <= 4_000_000_000_000_000_000) by (nonlinear_arith)
            requires -2_000_000_000 <= dx <= 2_000_000_000;
        assert(0 <= dy * dy <= 4_000_000_000_000_000_000) by (nonlinear_arith)
            requires -2_000_000_000 <= dy <= 2_000_000_000;
    }
    dx * dx + dy * dy
}

/// First point (in index order) within the hit radius of `pos`, if any.
pub fn hit_test(points: &Vec<Point>, pos: Point) -> (r: Option<usize>)
    requires
        forall|i: int| 0 <= i < points@.len() ==> points@[i].in_bounds(),
        pos.in_bounds(),
    ensures
        spec_first_hit_is(points@, pos, r),
{
    let n: usize = points.len();
    let mut i: usize = 0;
    while i < n
        invariant
            i <= n,
            n == points@.len(),
            forall|j: int| 0 <= j < points@.len() ==> points@[j].in_bounds(),
            pos.in_bounds(),
            forall|q: int| 0 <= q < i ==> !spec_hit(points@[q], pos),
        decreases n - i,
    {
        if dist_sq(points[i], pos) < HIT_RADIUS_SQ {
            return Some(i);
        }
        i += 1;
    }
    None
}

/// The nine default control points: `(t*t, t*t*t)` for
/// `t` in `-1.4, -1.2, -1.0, -0.7, 0, 0.7, 1.0, 1.2, 1.4`,
/// in coordinate units.
pub open spec fn spec_default_points() -> Seq<Point> {
    seq![
        (Point { x: 1960, y: -2744i64 }),
        (Point { x: 1440, y: -1728i64 }),
        (Point { x: 1000, y: -1000i64 }),
        (Point { x: 490, y: -343i64 }),
        (Point { x: 0, y: 0 }),
        (Point { x: 490, y: 343 }),
        (Point { x: 1000, y: 1000 }),
        (Point { x: 1440, y: 1728 }),
        (Point { x: 1960, y: 2744 }),
    ]
}

/// The parameter values of the default points, in coordinate units.
pub open spec fn spec_default_t(i: int) -> int {
    seq![-1400int, -1200, -1000, -700, 0, 700, 1000, 1200, 1400][i]
}

/// Builds the default control points.
pub fn default_points() -> (r: Vec<Point>)
    ensures
        r@ == spec_default_points(),
{
    let mut v: Vec<Point> = Vec::new();
    v.push(Point { x: 1960, y: -2744 });
    v.push(Point { x: 1440, y: -1728 });
    v.push(Point { x: 1000, y: -1000 });
    v.push(Point { x: 490, y: -343 });
    v.push(Point { x: 0, y: 0 });
    v.push(Point { x: 490, y: 343 });
    v.push(Point { x: 1000, y: 1000 });
    v.push(Point { x: 1440, y: 1728 });
    v.push(Point { x: 1960, y: 2744 });
    proof {
        assert(v@ =~= spec_default_points());
    }
    v
}

/// The point lies on the cuspidal cubic `y * y == x * x * x` of the
/// continuous model; the factor `1000` accounts for the fixed-point
/// scale (`COORD_SCALE`).
pub open spec fn on_cuspidal_cubic(p: Point) -> bool {
    p.y * p.y * 1000 == p.x * p.x * p.x
}

/// The point is `(t * t, t * t * t)` of the continuous model, `t` given
/// in coordinate units; the factors account for the fixed-point scale.
pub open spec fn is_cubic_param(p: Point, t: int) -> bool {
    p.x * 1000 == t * t && p.y * 1_000_000 == t * t * t
}

/// The default points lie exactly on the cuspidal cubic and are exactly
/// the parametrization `(t * t, t * t * t)` at the default parameter
/// values.
#[verifier::rlimit(100)]
pub proof fn lemma_default_points_on_cubic()
    ensures
        forall|i: int| 0 <= i < 9 ==> on_cuspidal_cubic(#[trigger] spec_default_points()[i]),
        forall|i: int| 0 <= i < 9 ==> is_cubic_param(
            #[trigger] spec_default_points()[i],
            spec_default_t(i),
        ),
{
    assert forall|i: int| 0 <= i < 9 implies on_cuspidal_cubic(#[trigger] spec_default_points()[i])
        && is_cubic_param(spec_default_points()[i], spec_default_t(i)) by {
        if i == 0 {
            assert(spec_default_points()[0] == (Point { x: 1960, y: -2744i64 }));
            assert(spec_default_t(0) == -1400);
            assert((-2744int) * (-2744) * 1000 == (1960int) * (1960) * (1960)) by (nonlinear_arith);
            assert((1960int) * 1000 == (-1400int) * (-1400)) by (nonlinear_arith);
            assert((-2744int) * 1_000_000 == (-1400int) * (-1400) * (-1400)) by (nonlinear_arith);
        } else if i == 1 {
            assert(spec_default_points()[1] == (Point { x: 1440, y: -1728i64 }));
            assert(spec_default_t(1) == -1200);
            assert((-1728int) * (-1728) * 1000 == (1440int) * (1440) * (1440)) by (nonlinear_arith);
            assert((1440int) * 1000 == (-1200int) * (-1200)) by (nonlinear_arith);
            assert((-1728int) * 1_000_000 == (-1200int) * (-1200) * (-1200)) by (nonlinear_arith);
        } else if i == 2 {
            assert(spec_default_points()[2] == (Point { x: 1000, y: -1000i64 }));
            assert(spec_default_t(2) == -1000);
            assert((-1000int) * (-1000) * 1000 == (1000int) * (1000) * (1000)) by (nonlinear_arith);
            assert((1000int) * 1000 == (-1000int) * (-1000)) by (nonlinear_arith);
            assert((-1000int) * 1_000_000 == (-1000int) * (-1000) * (-1000)) by (nonlinear_arith);
        } else if i == 3 {
            assert(spec_default_points()[3] == (Point { x: 490, y: -343i64 }));
            assert(spec_default_t(3) == -700);
            assert((-343int) * (-343) * 1000 == (490int) * (490) * (490)) by (nonlinear_arith);
            assert((490int) * 1000 == (-700int) * (-700)) by (nonlinear_arith);
            assert((-343int) * 1_000_000 == (-700int) * (-700) * (-700)) by (nonlinear_arith);
        } else if i == 4 {
            assert(spec_default_points()[4] == (Point { x: 0, y: 0i64 }));
            assert(spec_default_t(4) == 0);
            assert((0int) * (0) * 1000 == (0int) * (0) * (0)) by (nonlinear_arith);
            assert((0int) * 1000 == (0int) * (0)) by (nonlinear_arith);
            assert((0int) * 1_000_000 == (0int) * (0) * (0)) by (nonlinear_arith);
        } else if i == 5 {
            assert(spec_default_points()[5] == (Point { x: 490, y: 343i64 }));
            assert(spec_default_t(5) == 700);
            assert((343int) * (343) * 1000 == (490int) * (490) * (490)) by (nonlinear_arith);
            assert((490int) * 1000 == (700int) * (700)) by (nonlinear_arith);
            assert((343int) * 1_000_000 == (700int) * (700) * (700)) by (nonlinear_arith);
        } else if i == 6 {
            assert(spec_default_points()[6] == (Point { x: 1000, y: 1000i64 }));
            assert(spec_default_t(6) == 1000);
            assert((1000int) * (1000) * 1000 == (1000int) * (1000) * (1000)) by (nonlinear_arith);
            assert((1000int) * 1000 == (1000int) * (1000)) by (nonlinear_arith);
            assert((1000int) * 1_000_000 == (1000int) * (1000) * (1000)) by (nonlinear_arith);
        } else if i == 7 {
            assert(spec_default_points()[7] == (Point { x: 1440, y: 1728i64 }));
            assert(spec_default_t(7) == 1200);
            assert((1728int) * (1728) * 1000 == (1440int) * (1440) * (1440)) by (nonlinear_arith);
            assert((1440int) * 1000 == (1200int) * (1200)) by (nonlinear_arith);
            assert((1728int) * 1_000_000 == (1200int) * (1200) * (1200)) by (nonlinear_arith);
        } else {
            assert(i == 8);
            assert(spec_default_points()[8] == (Point { x: 1960, y: 2744i64 }));
            assert(spec_default_t(8) == 1400);
            assert((2744int) * (2744) * 1000 == (1960int) * (1960) * (1960)) by (nonlinear_arith);
            assert((1960int) * 1000 == (1400int) * (1400)) by (nonlinear_arith);
            assert((2744int) * 1_000_000 == (1400int) * (1400) * (1400)) by (nonlinear_arith);
        }
    }
}

/// The interaction model.
pub struct Model {
    /// The nine control points, in curve space.
    pub points: Vec<Point>,
    /// Index of the point being dragged, if any.
    pub selected_point: Option<usize>,
    /// Current drawable-surface size.
    pub viewport: Viewport,
}

impl Model {
    /// Structural invariant: nine in-bounds points, a valid selection
    /// index, a usable viewport.
    pub open spec fn wf(self) -> bool {
        &&& self.points@.len() == 9
        &&& forall|i: int| 0 <= i < 9 ==> self.points@[i].in_bounds()
        &&& self.viewport.wf()
        &&& match self.selected_point {
            Some(p) => p < 9,
            None => true,
        }
    }

    /// A fresh model over a host container of the given pixel size: the
    /// default points, no selection, the container size minus the margin.
    pub fn init(container_width: u32, container_height: u32) -> (r: Model)
        requires
            MARGIN < container_width <= MAX_DIM + MARGIN,
            MARGIN < container_height <= MAX_DIM + MARGIN,
        ensures
            r.points@ == spec_default_points(),
            r.selected_point is None,
            r.viewport.width == container_width - MARGIN,
            r.viewport.height == container_height - MARGIN,
            r.wf(),
    {
        let r = Model {
            points: default_points(),
            selected_point: None,
            viewport: Viewport::from_container(container_width, container_height),
        };
        proof {
            assert forall|i: int| 0 <= i < 9 implies r.points@[i].in_bounds() by {
                assert(r.points@ == spec_default_points());
            }
        }
        r
    }

    /// Applies one host event.
    ///
    /// - `Click` with a selection held releases it, wherever the click
    ///   lands; with no selection held it selects the first point within
    ///   the hit radius, and selects nothing when no point is hit.
    /// - `MouseMove` with a selection held overwrites exactly the selected
    ///   point; the other points, the selection and the viewport are kept.
    /// - `Resize` replaces the viewport by the container size minus the
    ///   margin and touches neither points nor selection.
    /// - `Frame` mutates nothing.
    pub fn update(&mut self, msg: Msg)
        requires
            old(self).wf(),
            msg.valid(),
        ensures
            final(self).wf(),
            match msg {
                Msg::Click(pos) => {
                    &&& final(self).points@ == old(self).points@
                    &&& final(self).viewport == old(self).viewport
                    &&& if old(self).selected_point is Some {
                        final(self).selected_point is None
                    } else {
                        spec_first_hit_is(old(self).points@, pos, final(self).selected_point)
                    }
                },
                Msg::MouseMove(pos) => {
                    &&& final(self).viewport == old(self).viewport
                    &&& final(self).selected_point == old(self).selected_point
                    &&& match old(self).selected_point {
                        Some(p) => final(self).points@ == old(self).points@.update(p as int, pos),
                        None => final(self).points@ == old(self).points@,
                    }
                },
                Msg::Resize(w, h) => {
                    &&& final(self).points@ == old(self).points@
                    &&& final(self).selected_point == old(self).selected_point
                    &&& final(self).viewport.width == w - MARGIN
                    &&& final(self).viewport.height == h - MARGIN
                },
                Msg::Frame => *final(self) == *old(self),
            },
    {
        match msg {
            Msg::Click(pos) => {
                if self.selected_point.is_some() {
                    self.selected_point = None;
                } else {
                    self.selected_point = hit_test(&self.points, pos);
                }
            },
            Msg::MouseMove(pos) => {
                match self.selected_point {
                    Some(p) => {
                        self.points[p] = pos;
                    },
                    None => {},
                }
            },
            Msg::Resize(w, h) => {
                self.viewport = Viewport::from_container(w, h);
            },
            Msg::Frame => {},
        }
    }
}

} // verus!
