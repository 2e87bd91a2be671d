//! The path engine: an append-only, verb-tagged point buffer forming a
//! state machine for subpath construction.
//!
//! A [`Path`] owns two parallel buffers: a sequence of 2D points and a
//! sequence of [`Verb`]s. Each verb consumes a fixed number of points
//! ([`verb_points`]); the two buffers are kept mutually consistent by
//! construction, since paths can only be produced through a
//! [`PathBuilder`].

use vstd::prelude::*;

use crate::math::{Point2, Rect, Scalar, Zero};

verus! {

/// A tag identifying which path-drawing operation a run of points
/// represents.
#[derive(Debug, Clone, Copy, PartialEq, Eq, Hash)]
pub enum Verb {
    /// Starts a new subpath at one point.
    Open,
    /// A straight line to one point.
    LineTo,
    /// A quadratic segment: end point and one control point.
    QuadTo,
    /// A cubic segment: end point and two control points.
    CubicTo,
    /// Closes the current subpath; consumes no point.
    Close,
}

/// The number of points a verb consumes.
pub open spec fn verb_points(verb: Verb) -> nat {
    match verb {
        Verb::Open => 1,
        Verb::LineTo => 1,
        Verb::QuadTo => 2,
        Verb::CubicTo => 3,
        Verb::Close => 0,
    }
}

/// The total number of points a sequence of verbs consumes.
pub open spec fn points_needed(verbs: Seq<Verb>) -> nat
    decreases verbs.len(),
{
    if verbs.len() == 0 {
        0
    } else {
        points_needed(verbs.drop_last()) + verb_points(verbs.last())
    }
}

/// Appending a verb adds exactly its point count to the total.
pub broadcast proof fn lemma_points_needed_push(verbs: Seq<Verb>, verb: Verb)
    ensures
        #[trigger] points_needed(verbs.push(verb)) == points_needed(verbs) + verb_points(verb),
{
    assert(verbs.push(verb).drop_last() =~= verbs);
}

/// Point totals of prefixes grow by the point count of the verb crossed.
pub proof fn lemma_points_needed_take_succ(verbs: Seq<Verb>, i: int)
    requires
        0 <= i < verbs.len(),
    ensures
        points_needed(verbs.take(i + 1)) == points_needed(verbs.take(i)) + verb_points(verbs[i]),
{
    assert(verbs.take(i + 1).drop_last() =~= verbs.take(i));
    assert(verbs.take(i + 1).last() == verbs[i]);
}

/// The point total of a prefix never exceeds the total of the whole
/// sequence.
pub proof fn lemma_points_needed_take_le(verbs: Seq<Verb>, i: int)
    requires
        0 <= i <= verbs.len(),
    ensures
        points_needed(verbs.take(i)) <= points_needed(verbs),
    decreases verbs.len() - i,
{
    if i == verbs.len() {
        assert(verbs.take(i) =~= verbs);
    } else {
        lemma_points_needed_take_succ(verbs, i);
        lemma_points_needed_take_le(verbs, i + 1);
    }
}

/// The verb buffer that building yields from a builder's recorded verbs: a
/// single leftover verb (a lone `Open`, a move with no drawing) collapses
/// to the empty path, and an unterminated trailing subpath — the builder
/// was not in the move-required state and the last verb is not already a
/// `Close` — has exactly one `Close` appended.
pub open spec fn build_verbs(verbs: Seq<Verb>, move_required: bool) -> Seq<Verb> {
    let vs = if verbs.len() == 1 {
        Seq::<Verb>::empty()
    } else {
        verbs
    };
    if !move_required && vs.len() > 0 && vs.last() != Verb::Close {
        vs.push(Verb::Close)
    } else {
        vs
    }
}

/// The point buffer that building yields: emptied exactly when the single
/// leftover verb is deleted, kept as recorded otherwise.
pub open spec fn build_points<T>(points: Seq<Point2<T>>, verbs: Seq<Verb>) -> Seq<Point2<T>> {
    if verbs.len() == 1 {
        Seq::<Point2<T>>::empty()
    } else {
        points
    }
}

/// The components of a [`Path`].
#[derive(Debug, Clone, Copy, PartialEq, PartialOrd)]
pub enum PathElement<T> {
    Open(Point2<T>),
    LineTo(Point2<T>),
    QuadTo { p: Point2<T>, c: Point2<T> },
    CubicTo { p: Point2<T>, c1: Point2<T>, c2: Point2<T> },
    Close,
}

/// The element a verb at position `i` decodes to, given the two buffers of
/// a well-formed path.
pub open spec fn spec_element_at<T>(
    points: Seq<Point2<T>>,
    verbs: Seq<Verb>,
    i: int,
) -> PathElement<T> {
    let off = points_needed(verbs.take(i)) as int;
    match verbs[i] {
        Verb::Open => PathElement::Open(points[off]),
        Verb::LineTo => PathElement::LineTo(points[off]),
        Verb::QuadTo => PathElement::QuadTo { p: points[off], c: points[off + 1] },
        Verb::CubicTo => PathElement::CubicTo {
            p: points[off],
            c1: points[off + 1],
            c2: points[off + 2],
        },
        Verb::Close => PathElement::Close,
    }
}

/// The full element sequence the two buffers of a well-formed path decode
/// to.
pub open spec fn spec_elements<T>(points: Seq<Point2<T>>, verbs: Seq<Verb>) -> Seq<
    PathElement<T>,
> {
    Seq::new(verbs.len(), |i: int| spec_element_at(points, verbs, i))
}

/// A SVG-style vector path.
///
/// Paths are immutable once built; the only ways to obtain one are
/// [`Path::new`] and [`PathBuilder::build`] (also via [`Path::from_fn`] and
/// [`Path::update`]), which establish [`Path::wf`].
#[derive(Debug, Clone, PartialEq)]
pub struct Path<T> {
    points: Vec<Point2<T>>,
    verbs: Vec<Verb>,
}

/// An interface for creating and modifying [`Path`]s.
///
/// The builder is a state machine: *fresh* (no verbs, a move is required
/// before drawing), *subpath-open* (drawing verbs are accepted), and
/// *subpath-closed* (after [`PathBuilder::close`], a move is required again
/// but the last opened point is remembered, so drawing can resume without
/// restating an origin).
#[derive(Debug)]
pub struct PathBuilder<T> {
    points: Vec<Point2<T>>,
    verbs: Vec<Verb>,
    move_required: bool,
    last_point: Option<usize>,
}

impl<T> Path<T> {
    /// The point buffer, at the specification level.
    pub closed spec fn spec_points(self) -> Seq<Point2<T>> {
        self.points@
    }

    /// The verb buffer, at the specification level.
    pub closed spec fn spec_verbs(self) -> Seq<Verb> {
        self.verbs@
    }

    /// Well-formedness: the verbs consume exactly the stored points, and the
    /// path has the shape `build` guarantees: it is never a single verb, and
    /// a non-empty path ends with a `Close`.
    pub open spec fn wf(self) -> bool {
        &&& points_needed(self.spec_verbs()) == self.spec_points().len()
        &&& self.spec_verbs().len() != 1
        &&& self.spec_verbs().len() > 0 ==> self.spec_verbs().last() == Verb::Close
    }

    /// Returns an empty path.
    pub fn new() -> (r: Self)
        ensures
            r.wf(),
            r.spec_verbs().len() == 0,
            r.spec_points().len() == 0,
    {
        Path { points: Vec::new(), verbs: Vec::new() }
    }

    /// Returns a [`PathBuilder`] for creating a path.
    pub fn builder() -> (r: PathBuilder<T>)
        ensures
            r.wf(),
            r.spec_fresh(),
    {
        PathBuilder::new()
    }

    /// Returns the amount of elements in this path.
    pub fn len(&self) -> (r: usize)
        ensures
            r == self.spec_verbs().len(),
    {
        self.verbs.len()
    }

    /// Returns `true` if this path contains no elements.
    pub fn is_empty(&self) -> (r: bool)
        ensures
            r == (self.spec_verbs().len() == 0),
    {
        self.len() == 0
    }

    /// Returns the verbs of this path.
    pub fn verbs(&self) -> (r: &Vec<Verb>)
        ensures
            r@ == self.spec_verbs(),
    {
        &self.verbs
    }

    /// Returns the points of this path.
    pub fn points(&self) -> (r: &Vec<Point2<T>>)
        ensures
            r@ == self.spec_points(),
    {
        &self.points
    }

    /// Clears all elements from this path.
    pub fn clear(&mut self)
        ensures
            final(self).wf(),
            final(self).spec_verbs().len() == 0,
            final(self).spec_points().len() == 0,
    {
        self.points.clear();
        self.verbs.clear();
    }

    /// Creates a path in-place via a closure over a fresh builder.
    pub fn from_fn<F: FnOnce(PathBuilder<T>) -> PathBuilder<T>>(f: F) -> (r: Self)
        requires
            forall|b0: PathBuilder<T>| b0.spec_fresh() ==> call_requires(f, (b0,)),
            forall|b0: PathBuilder<T>, b1: PathBuilder<T>|
                b0.spec_fresh() && call_ensures(f, (b0,), b1) ==> b1.wf(),
        ensures
            r.wf(),
            exists|b0: PathBuilder<T>, b1: PathBuilder<T>|
                b0.spec_fresh() && #[trigger] call_ensures(f, (b0,), b1) && r.spec_verbs()
                    == build_verbs(b1.spec_verbs(), b1.spec_move_required()) && r.spec_points()
                    == build_points(b1.spec_points(), b1.spec_verbs()),
    {
        let builder = PathBuilder::new();

        f(builder).build()
    }

    /// Mutates this path in-place via a closure over a builder holding the
    /// path's buffers.
    ///
    /// The builder handed to the closure starts in the move-required state
    /// with no remembered last point, exactly as if the path had been handed
    /// to [`PathBuilder::from_path`]; the closure's result is built back
    /// into this path.
    pub fn update<F: FnOnce(PathBuilder<T>) -> PathBuilder<T>>(&mut self, f: F)
        requires
            old(self).wf(),
            forall|b0: PathBuilder<T>| b0.spec_reopens(*old(self)) ==> call_requires(f, (b0,)),
            forall|b0: PathBuilder<T>, b1: PathBuilder<T>|
                b0.spec_reopens(*old(self)) && call_ensures(f, (b0,), b1) ==> b1.wf(),
        ensures
            final(self).wf(),
            exists|b0: PathBuilder<T>, b1: PathBuilder<T>|
                b0.spec_reopens(*old(self)) && #[trigger] call_ensures(f, (b0,), b1)
                    && final(self).spec_verbs() == build_verbs(
                    b1.spec_verbs(),
                    b1.spec_move_required(),
                ) && final(self).spec_points() == build_points(b1.spec_points(), b1.spec_verbs()),
    {
        let mut points: Vec<Point2<T>> = Vec::new();
        let mut verbs: Vec<Verb> = Vec::new();

        core::mem::swap(&mut self.points, &mut points);
        core::mem::swap(&mut self.verbs, &mut verbs);

        let builder = PathBuilder { points, verbs, move_required: true, last_point: None };

        proof {
            assert(builder.spec_reopens(*old(self)));
        }

        let built = f(builder).build();

        let Path { points: new_points, verbs: new_verbs } = built;

        self.points = new_points;
        self.verbs = new_verbs;
    }
}

impl<T> Default for Path<T> {
    /// The empty path.
    fn default() -> (r: Self)
        ensures
            r.wf(),
            r.spec_verbs().len() == 0,
            r.spec_points().len() == 0,
    {
        Path::new()
    }
}

impl<T> PathBuilder<T> {
    /// The point buffer, at the specification level.
    pub closed spec fn spec_points(self) -> Seq<Point2<T>> {
        self.points@
    }

    /// The verb buffer, at the specification level.
    pub closed spec fn spec_verbs(self) -> Seq<Verb> {
        self.verbs@
    }

    /// Whether an `Open` must be emitted before the next drawing verb, at
    /// the specification level.
    pub closed spec fn spec_move_required(self) -> bool {
        self.move_required
    }

    /// The index of the most recently opened point, if any, at the
    /// specification level.
    pub closed spec fn spec_last_point(self) -> Option<usize> {
        self.last_point
    }

    /// Well-formedness: the verbs consume exactly the stored points, the
    /// remembered point index is in bounds, and whenever a move is required
    /// the recorded verbs are empty or end in a `Close`.
    pub open spec fn wf(self) -> bool {
        &&& points_needed(self.spec_verbs()) == self.spec_points().len()
        &&& match self.spec_last_point() {
            Some(i) => i < self.spec_points().len(),
            None => true,
        }
        &&& self.spec_move_required() ==> (self.spec_verbs().len() == 0 || self.spec_verbs().last()
            == Verb::Close)
    }

    /// Whether this builder is in the fresh state: nothing recorded, a move
    /// required, no remembered point.
    pub open spec fn spec_fresh(self) -> bool {
        &&& self.spec_points().len() == 0
        &&& self.spec_verbs().len() == 0
        &&& self.spec_move_required()
        &&& self.spec_last_point() is None
    }

    /// Whether this builder holds exactly the buffers of `path`, in the
    /// move-required state with no remembered point.
    pub open spec fn spec_reopens(self, path: Path<T>) -> bool {
        &&& self.spec_points() == path.spec_points()
        &&& self.spec_verbs() == path.spec_verbs()
        &&& self.spec_move_required()
        &&& self.spec_last_point() is None
    }

    /// Returns a new path builder.
    pub fn new() -> (r: Self)
        ensures
            r.wf(),
            r.spec_fresh(),
    {
        PathBuilder { points: Vec::new(), verbs: Vec::new(), move_required: true, last_point: None }
    }

    /// Returns the amount of elements in this path.
    pub fn len(&self) -> (r: usize)
        ensures
            r == self.spec_verbs().len(),
    {
        self.verbs.len()
    }

    /// Returns `true` if this path contains no elements.
    pub fn is_empty(&self) -> (r: bool)
        ensures
            r == (self.spec_verbs().len() == 0),
    {
        self.len() == 0
    }

    /// Returns a path builder for a path.
    pub fn from_path(path: Path<T>) -> (r: Self)
        requires
            path.wf(),
        ensures
            r.wf(),
            r.spec_reopens(path),
    {
        let Path { points, verbs } = path;

        PathBuilder { points, verbs, move_required: true, last_point: None }
    }

    /// Opens a new subpath.
    ///
    /// Always legal: it unconditionally starts a new subpath at `point`,
    /// whatever the current state, without inserting a `Close` for a prior
    /// open subpath.
    pub fn open(&mut self, point: Point2<T>)
        requires
            old(self).wf(),
        ensures
            final(self).wf(),
            final(self).spec_verbs() == old(self).spec_verbs().push(Verb::Open),
            final(self).spec_points() == old(self).spec_points().push(point),
            !final(self).spec_move_required(),
            final(self).spec_last_point() == Some(old(self).spec_points().len() as usize),
    {
        proof {
            broadcast use lemma_points_needed_push;
        }

        self.move_required = false;
        self.last_point = Some(self.points.len());

        self.verbs.push(Verb::Open);
        self.points.push(point);
    }

    /// Closes the current subpath.
    ///
    /// A no-op if no verbs have been recorded yet; otherwise appends a
    /// `Close` and requires a move before the next drawing verb.
    pub fn close(&mut self)
        requires
            old(self).wf(),
        ensures
            final(self).wf(),
            old(self).spec_verbs().len() == 0 ==> *final(self) == *old(self),
            old(self).spec_verbs().len() > 0 ==> (
                final(self).spec_verbs() == old(self).spec_verbs().push(Verb::Close)
                && final(self).spec_points() == old(self).spec_points()
                && final(self).spec_move_required()
                && final(self).spec_last_point() == old(self).spec_last_point()
            ),
    {
        proof {
            broadcast use lemma_points_needed_push;
        }

        if self.verbs.len() > 0 {
            self.verbs.push(Verb::Close);
            self.move_required = true;
        }
    }

    /// Clears all elements from the builder, resetting it to the fresh
    /// state for reuse.
    pub fn clear(&mut self)
        ensures
            final(self).wf(),
            final(self).spec_fresh(),
    {
        self.points.clear();
        self.verbs.clear();

        self.move_required = true;
        self.last_point = None;
    }

    /// Builds a new [`Path`], consuming the builder.
    ///
    /// A path holding nothing but a single `Open` collapses to the empty
    /// path; a trailing subpath still open is closed.
    pub fn build(self) -> (r: Path<T>)
        requires
            self.wf(),
        ensures
            r.wf(),
            r.spec_verbs() == build_verbs(self.spec_verbs(), self.spec_move_required()),
            r.spec_points() == build_points(self.spec_points(), self.spec_verbs()),
    {
        proof {
            broadcast use lemma_points_needed_push;
        }

        let PathBuilder { mut points, mut verbs, move_required, last_point: _ } = self;

        // a path holding a lone move draws nothing: delete it
        if verbs.len() == 1 {
            points.clear();
            verbs.clear();
        }

        // a subpath still open is closed
        if !move_required && verbs.len() > 0 {
            let last_is_close = match verbs[verbs.len() - 1] {
                Verb::Close => true,
                _ => false,
            };

            if !last_is_close {
                verbs.push(Verb::Close);
            }
        }

        Path { points, verbs }
    }
}

impl<T> Default for PathBuilder<T> {
    /// A fresh builder.
    fn default() -> (r: Self)
        ensures
            r.wf(),
            r.spec_fresh(),
    {
        PathBuilder::new()
    }
}

impl<T: Zero> PathBuilder<T> {
    /// The point an implicit `Open` reuses: the most recently opened point
    /// if one is remembered, the zero point otherwise.
    pub open spec fn spec_open_point(self) -> Point2<T> {
        match self.spec_last_point() {
            Some(i) => self.spec_points()[i as int],
            None => Point2 { x: T::spec_zero(), y: T::spec_zero() },
        }
    }

    /// Emits the implicit `Open` if one is pending.
    fn move_if_required(&mut self)
        requires
            old(self).wf(),
        ensures
            final(self).wf(),
            !final(self).spec_move_required(),
            !old(self).spec_move_required() ==> *final(self) == *old(self),
            old(self).spec_move_required() ==> (
                final(self).spec_verbs() == old(self).spec_verbs().push(Verb::Open)
                && final(self).spec_points() == old(self).spec_points().push(
                    old(self).spec_open_point(),
                )
                && final(self).spec_last_point() == Some(old(self).spec_points().len() as usize)
            ),
    {
        if self.move_required {
            match self.last_point {
                Some(idx) => {
                    let point = self.points[idx];

                    self.open(point);
                },
                None => {
                    self.open(Point2 { x: T::zero(), y: T::zero() });
                },
            }
        }
    }

    /// Adds a line to a point to this path.
    ///
    /// If a move is pending, an `Open` at [`PathBuilder::spec_open_point`]
    /// is emitted first.
    pub fn line_to(&mut self, point: Point2<T>)
        requires
            old(self).wf(),
        ensures
            final(self).wf(),
            !final(self).spec_move_required(),
            !old(self).spec_move_required() ==> (
                final(self).spec_verbs() == old(self).spec_verbs().push(Verb::LineTo)
                && final(self).spec_points() == old(self).spec_points().push(point)
                && final(self).spec_last_point() == old(self).spec_last_point()
            ),
            old(self).spec_move_required() ==> (
                final(self).spec_verbs() == old(self).spec_verbs().push(Verb::Open).push(
                    Verb::LineTo,
                )
                && final(self).spec_points() == old(self).spec_points().push(
                    old(self).spec_open_point(),
                ).push(point)
                && final(self).spec_last_point() == Some(old(self).spec_points().len() as usize)
            ),
    {
        proof {
            broadcast use lemma_points_needed_push;
        }

        self.move_if_required();

        self.verbs.push(Verb::LineTo);
        self.points.push(point);
    }

    /// Adds a quadratic segment to a point `p` with control point `c` to
    /// this path.
    ///
    /// If a move is pending, an `Open` at [`PathBuilder::spec_open_point`]
    /// is emitted first.
    pub fn quad_to(&mut self, p: Point2<T>, c: Point2<T>)
        requires
            old(self).wf(),
        ensures
            final(self).wf(),
            !final(self).spec_move_required(),
            !old(self).spec_move_required() ==> (
                final(self).spec_verbs() == old(self).spec_verbs().push(Verb::QuadTo)
                && final(self).spec_points() == old(self).spec_points().push(p).push(c)
                && final(self).spec_last_point() == old(self).spec_last_point()
            ),
            old(self).spec_move_required() ==> (
                final(self).spec_verbs() == old(self).spec_verbs().push(Verb::Open).push(
                    Verb::QuadTo,
                )
                && final(self).spec_points() == old(self).spec_points().push(
                    old(self).spec_open_point(),
                ).push(p).push(c)
                && final(self).spec_last_point() == Some(old(self).spec_points().len() as usize)
            ),
    {
        proof {
            broadcast use lemma_points_needed_push;
        }

        self.move_if_required();

        self.verbs.push(Verb::QuadTo);
        self.points.push(p);
        self.points.push(c);
    }

    /// Adds a cubic segment to a point `p` with control points `c1` and
    /// `c2` to this path.
    ///
    /// If a move is pending, an `Open` at [`PathBuilder::spec_open_point`]
    /// is emitted first.
    pub fn cubic_to(&mut self, p: Point2<T>, c1: Point2<T>, c2: Point2<T>)
        requires
            old(self).wf(),
        ensures
            final(self).wf(),
            !final(self).spec_move_required(),
            !old(self).spec_move_required() ==> (
                final(self).spec_verbs() == old(self).spec_verbs().push(Verb::CubicTo)
                && final(self).spec_points() == old(self).spec_points().push(p).push(c1).push(c2)
                && final(self).spec_last_point() == old(self).spec_last_point()
            ),
            old(self).spec_move_required() ==> (
                final(self).spec_verbs() == old(self).spec_verbs().push(Verb::Open).push(
                    Verb::CubicTo,
                )
                && final(self).spec_points() == old(self).spec_points().push(
                    old(self).spec_open_point(),
                ).push(p).push(c1).push(c2)
                && final(self).spec_last_point() == Some(old(self).spec_points().len() as usize)
            ),
    {
        proof {
            broadcast use lemma_points_needed_push;
        }

        self.move_if_required();

        self.verbs.push(Verb::CubicTo);
        self.points.push(p);
        self.points.push(c1);
        self.points.push(c2);
    }
}

/// Iterator over the [`PathElement`]s of a [`Path`].
///
/// A single-pass, finite walk of the path's verbs that draws the matching
/// number of points for each; it is restartable by obtaining a fresh one
/// from [`Path::iter`].
pub struct PathElements<'a, T> {
    points: &'a Vec<Point2<T>>,
    verbs: &'a Vec<Verb>,
    verb_pos: usize,
    point_pos: usize,
}

impl<'a, T> PathElements<'a, T> {
    /// The point buffer walked, at the specification level.
    pub closed spec fn spec_points(self) -> Seq<Point2<T>> {
        self.points@
    }

    /// The verb buffer walked, at the specification level.
    pub closed spec fn spec_verbs(self) -> Seq<Verb> {
        self.verbs@
    }

    /// How many verbs have been yielded, at the specification level.
    pub closed spec fn spec_pos(self) -> int {
        self.verb_pos as int
    }

    /// Well-formedness: the buffers are mutually consistent and the point
    /// cursor sits exactly at the total consumed by the verbs already
    /// yielded.
    pub closed spec fn wf(self) -> bool {
        &&& points_needed(self.verbs@) == self.points@.len()
        &&& self.verb_pos <= self.verbs@.len()
        &&& self.point_pos == points_needed(self.verbs@.take(self.verb_pos as int))
    }

    /// Returns the exact number of elements left to yield.
    pub fn len(&self) -> (r: usize)
        requires
            self.wf(),
        ensures
            r == self.spec_verbs().len() - self.spec_pos(),
    {
        self.verbs.len() - self.verb_pos
    }

    /// Yields the next element, or `None` when the walk is done.
    pub fn next(&mut self) -> (r: Option<PathElement<T>>) where T: Copy
        requires
            old(self).wf(),
        ensures
            final(self).wf(),
            final(self).spec_points() == old(self).spec_points(),
            final(self).spec_verbs() == old(self).spec_verbs(),
            old(self).spec_pos() < old(self).spec_verbs().len() ==> (
                r == Some(
                    spec_element_at(
                        old(self).spec_points(),
                        old(self).spec_verbs(),
                        old(self).spec_pos(),
                    ),
                )
                && final(self).spec_pos() == old(self).spec_pos() + 1
            ),
            old(self).spec_pos() == old(self).spec_verbs().len() ==> (
                r is None && final(self).spec_pos() == old(self).spec_pos()
            ),
    {
        if self.verb_pos < self.verbs.len() {
            proof {
                lemma_points_needed_take_succ(self.verbs@, self.verb_pos as int);
                lemma_points_needed_take_le(self.verbs@, self.verb_pos as int + 1);
            }

            let total_points = self.points.len();
            let verb = self.verbs[self.verb_pos];

            self.verb_pos = self.verb_pos + 1;

            proof {
                assert(self.point_pos + verb_points(verb) <= total_points);
            }

            match verb {
                Verb::Open => {
                    let p = self.points[self.point_pos];

                    self.point_pos = self.point_pos + 1;

                    Some(PathElement::Open(p))
                },
                Verb::LineTo => {
                    let p = self.points[self.point_pos];

                    self.point_pos = self.point_pos + 1;

                    Some(PathElement::LineTo(p))
                },
                Verb::QuadTo => {
                    let p = self.points[self.point_pos];
                    let c = self.points[self.point_pos + 1];

                    self.point_pos = self.point_pos + 2;

                    Some(PathElement::QuadTo { p, c })
                },
                Verb::CubicTo => {
                    let p = self.points[self.point_pos];
                    let c1 = self.points[self.point_pos + 1];
                    let c2 = self.points[self.point_pos + 2];

                    self.point_pos = self.point_pos + 3;

                    Some(PathElement::CubicTo { p, c1, c2 })
                },
                Verb::Close => Some(PathElement::Close),
            }
        } else {
            None
        }
    }
}

impl<T> Path<T> {
    /// Returns an iterator of [`PathElement`]s, positioned at the start.
    pub fn iter<'a>(&'a self) -> (r: PathElements<'a, T>)
        requires
            self.wf(),
        ensures
            r.wf(),
            r.spec_points() == self.spec_points(),
            r.spec_verbs() == self.spec_verbs(),
            r.spec_pos() == 0,
    {
        proof {
            assert(self.verbs@.take(0) =~= Seq::<Verb>::empty());
        }

        PathElements { points: &self.points, verbs: &self.verbs, verb_pos: 0, point_pos: 0 }
    }

    /// Returns all elements of this path, decoded in order.
    pub fn elements(&self) -> (r: Vec<PathElement<T>>) where T: Copy
        requires
            self.wf(),
        ensures
            r@ == spec_elements(self.spec_points(), self.spec_verbs()),
    {
        let ghost all = spec_elements(self.spec_points(), self.spec_verbs());

        let mut out: Vec<PathElement<T>> = Vec::new();
        let mut it = self.iter();

        proof {
            assert(out@ =~= all.take(0));
        }

        while it.len() > 0
            invariant
                it.wf(),
                it.spec_points() == self.spec_points(),
                it.spec_verbs() == self.spec_verbs(),
                self.wf(),
                all == spec_elements(self.spec_points(), self.spec_verbs()),
                out@ == all.take(it.spec_pos()),
            decreases it.spec_verbs().len() - it.spec_pos(),
        {
            let element = it.next();

            match element {
                Some(element) => {
                    out.push(element);

                    proof {
                        assert(out@ =~= all.take(it.spec_pos()));
                    }
                },
                None => {},
            }
        }

        proof {
            assert(all.take(it.spec_pos()) =~= all);
        }

        out
    }
}

impl<T: Scalar> Path<T> {
    /// Returns the rectangle's outline as a path: an `Open` at the origin,
    /// lines through the upper-right, lower-right and lower-left corners,
    /// closed on build.
    pub fn from_rect(rect: Rect<T>) -> (r: Path<T>)
        requires
            T::fits(rect.spec_right()),
            T::fits(rect.spec_bottom()),
        ensures
            r.wf(),
            r.spec_verbs() == seq![
                Verb::Open,
                Verb::LineTo,
                Verb::LineTo,
                Verb::LineTo,
                Verb::Close,
            ],
            r.spec_points().len() == 4,
            r.spec_points()[0] == rect.origin,
            r.spec_points()[1].x.lift() == rect.spec_right(),
            r.spec_points()[1].y == rect.origin.y,
            r.spec_points()[2].x.lift() == rect.spec_right(),
            r.spec_points()[2].y.lift() == rect.spec_bottom(),
            r.spec_points()[3].x == rect.origin.x,
            r.spec_points()[3].y.lift() == rect.spec_bottom(),
    {
        let ne = Point2 { x: rect.origin.x.plus(rect.size.w), y: rect.origin.y };
        let se = Point2 { x: ne.x, y: rect.origin.y.plus(rect.size.h) };

        proof {
            rect.origin.x.lemma_lift_fits();
        }

        let sw = Point2 { x: se.x.minus(rect.size.w), y: se.y };

        proof {
            T::lemma_lift_injective(sw.x, rect.origin.x);
        }

        let mut builder = PathBuilder::new();

        builder.open(rect.origin);
        builder.line_to(ne);
        builder.line_to(se);
        builder.line_to(sw);

        proof {
            assert(builder.spec_verbs() =~= seq![
                Verb::Open,
                Verb::LineTo,
                Verb::LineTo,
                Verb::LineTo,
            ]);
            assert(builder.spec_points() =~= seq![rect.origin, ne, se, sw]);
        }

        let path = builder.build();

        proof {
            assert(path.spec_verbs() =~= seq![
                Verb::Open,
                Verb::LineTo,
                Verb::LineTo,
                Verb::LineTo,
                Verb::Close,
            ]);
        }

        path
    }
}

/// Law: building a path whose recorded verbs are a single `Open` — a move
/// with no drawing — yields the empty path.
pub proof fn lemma_build_single_open_is_empty<T>(
    points: Seq<Point2<T>>,
    verbs: Seq<Verb>,
    move_required: bool,
)
    requires
        verbs =~= seq![Verb::Open],
    ensures
        build_verbs(verbs, move_required).len() == 0,
        build_points(points, verbs).len() == 0,
{
}

/// Law: when drawing verbs were recorded and no explicit `close` followed
/// them — the builder is not in the move-required state and its last verb
/// is not a `Close` — `build` appends exactly one trailing `Close` verb,
/// never more.
pub proof fn lemma_build_appends_one_close<T>(
    points: Seq<Point2<T>>,
    verbs: Seq<Verb>,
    move_required: bool,
)
    requires
        !move_required,
        verbs.len() >= 2,
        verbs.last() != Verb::Close,
    ensures
        build_verbs(verbs, move_required) =~= verbs.push(Verb::Close),
        build_points(points, verbs) == points,
{
}

/// Law: building an empty builder yields the empty path — no `Close` is
/// ever appended to an empty path.
pub proof fn lemma_build_empty_is_empty<T>(
    points: Seq<Point2<T>>,
    verbs: Seq<Verb>,
    move_required: bool,
)
    requires
        verbs.len() == 0,
    ensures
        build_verbs(verbs, move_required).len() == 0,
        build_points(points, verbs) == points,
{
}

/// Law: rebuilding an already-built path changes nothing. Reopening a
/// well-formed path in a builder (as [`Path::update`] and
/// [`PathBuilder::from_path`] do) and building straight back yields
/// buffers structurally equal to the original path's.
pub proof fn lemma_rebuild_is_identity<T>(path: Path<T>)
    requires
        path.wf(),
    ensures
        build_verbs(path.spec_verbs(), true) == path.spec_verbs(),
        build_points(path.spec_points(), path.spec_verbs()) == path.spec_points(),
{
}

} // verus!
