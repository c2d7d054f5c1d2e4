use crate::arith::floor_div;
use vstd::prelude::*;

verus! {

/// A place in the world.
#[derive(Debug, Clone, Copy, PartialEq, Eq, Structural)]
pub struct Point {
    pub x: i64,
    pub y: i64,
}

/// The rectangle of the screen that a map is drawn into.
#[derive(Debug, Clone, Copy, PartialEq, Eq, Structural)]
pub struct Rect {
    pub x: u16,
    pub y: u16,
    pub width: u16,
    pub height: u16,
}

/// A place on the screen. Its coordinates are wide enough for the image of
/// any world point, also one far outside the bounding box.
#[derive(Debug, Clone, Copy, PartialEq, Eq, Structural)]
pub struct ScreenPoint {
    pub x: i128,
    pub y: i128,
}

/// `lo` and `hi` are the corners of the smallest axis-aligned box around
/// the points of `s`: no point lies outside, and each side touches a point.
pub open spec fn bounding(s: Seq<Point>, lo: Point, hi: Point) -> bool {
    &&& forall|i: int|
        0 <= i < s.len() ==> lo.x <= (#[trigger] s[i]).x <= hi.x && lo.y <= s[i].y <= hi.y
    &&& exists|i: int| 0 <= i < s.len() && (#[trigger] s[i]).x == lo.x
    &&& exists|i: int| 0 <= i < s.len() && (#[trigger] s[i]).y == lo.y
    &&& exists|i: int| 0 <= i < s.len() && (#[trigger] s[i]).x == hi.x
    &&& exists|i: int| 0 <= i < s.len() && (#[trigger] s[i]).y == hi.y
}

/// `min` and `max` are what the bounding box of `s` must be: both absent
/// for no points, both present and exact otherwise.
pub open spec fn is_extent(s: Seq<Point>, min: Option<Point>, max: Option<Point>) -> bool {
    match (min, max) {
        (None, None) => s.len() == 0,
        (Some(lo), Some(hi)) => bounding(s, lo, hi),
        _ => false,
    }
}

/// The corners of the bounding box of `s`: both absent for no points.
pub open spec fn extent(s: Seq<Point>) -> (Option<Point>, Option<Point>) {
    if s.len() == 0 {
        (None, None)
    } else {
        let c = choose|c: (Point, Point)| bounding(s, c.0, c.1);
        (Some(c.0), Some(c.1))
    }
}

/// The image of the coordinate `v` when the interval from `lo` to `hi` is
/// laid over `size` cells starting at `origin`, rounded towards minus infinity.
pub open spec fn scale(origin: int, size: int, v: int, lo: int, hi: int) -> int
    recommends
        lo < hi,
{
    origin + (size * (v - lo)) / (hi - lo)
}

/// The image of `p` when the box from `lo` to `hi` is laid over `area`.
pub open spec fn normalized(p: Point, lo: Point, hi: Point, area: Rect) -> ScreenPoint
    recommends
        lo.x < hi.x,
        lo.y < hi.y,
{
    ScreenPoint {
        x: scale(area.x as int, area.width as int, p.x as int, lo.x as int, hi.x as int) as i128,
        y: scale(area.y as int, area.height as int, p.y as int, lo.y as int, hi.y as int) as i128,
    }
}

/// The images of all points of `s`, in order.
pub open spec fn normalized_all(s: Seq<Point>, lo: Point, hi: Point, area: Rect) -> Seq<
    ScreenPoint,
> {
    Seq::new(s.len(), |i: int| normalized(s[i], lo, hi, area))
}

/// A named set of wall points with the agent's place, if known, and the
/// corners of the box around the walls.
#[derive(Debug)]
pub struct World<'a> {
    pub name: &'a str,
    pub min: Option<Point>,
    pub max: Option<Point>,
    pub location: Option<Point>,
    pub wall_list: Vec<Point>,
}

/// What a map shows of a world: the agent's place, if known, and the walls,
/// all in screen coordinates.
#[derive(Debug)]
pub struct MapView {
    pub location: Option<ScreenPoint>,
    pub walls: Vec<ScreenPoint>,
}

/// The corners of the bounding box of `points`: both absent for no points,
/// else the least and the greatest coordinate in each direction.
pub fn extent_of(points: &Vec<Point>) -> (corners: (Option<Point>, Option<Point>))
    ensures
        corners == extent(points@),
        is_extent(points@, corners.0, corners.1),
{
    let n: usize = points.len();
    if n == 0 {
        return (None, None);
    }
    let first = points[0];
    let mut lo = first;
    let mut hi = first;
    let mut k: usize = 1;
    assert(points@.subrange(0, 1)[0] == first);
    while k < n
        invariant
            n == points@.len(),
            1 <= k <= n,
            bounding(points@.subrange(0, k as int), lo, hi),
        decreases n - k,
    {
        let ghost seen = points@.subrange(0, k as int);
        let ghost more = points@.subrange(0, k + 1);
        let ghost lo0 = lo;
        let ghost hi0 = hi;
        let p = points[k];
        if p.x < lo.x {
            lo.x = p.x;
        }
        if p.y < lo.y {
            lo.y = p.y;
        }
        if p.x > hi.x {
            hi.x = p.x;
        }
        if p.y > hi.y {
            hi.y = p.y;
        }
        proof {
            assert(more[k as int] == p);
            let a = choose|i: int| 0 <= i < seen.len() && (#[trigger] seen[i]).x == lo0.x;
            let b = choose|i: int| 0 <= i < seen.len() && (#[trigger] seen[i]).y == lo0.y;
            let c = choose|i: int| 0 <= i < seen.len() && (#[trigger] seen[i]).x == hi0.x;
            let d = choose|i: int| 0 <= i < seen.len() && (#[trigger] seen[i]).y == hi0.y;
            assert(more[a] == seen[a] && more[b] == seen[b]);
            assert(more[c] == seen[c] && more[d] == seen[d]);
            assert forall|i: int| 0 <= i < more.len() implies lo.x <= (#[trigger] more[i]).x
                <= hi.x && lo.y <= more[i].y <= hi.y by {
                if i < k {
                    assert(more[i] == seen[i]);
                }
            }
        }
        k = k + 1;
    }
    assert(points@.subrange(0, n as int) =~= points@);
    proof {
        lemma_extent(points@, Some(lo), Some(hi));
    }
    (Some(lo), Some(hi))
}

/// The image of one coordinate; see `scale`.
fn scale_coordinate(origin: u16, size: u16, v: i64, lo: i64, hi: i64) -> (out: i128)
    requires
        lo < hi,
    ensures
        out == scale(origin as int, size as int, v as int, lo as int, hi as int),
{
    let d: i128 = (hi as i128) - (lo as i128);
    let offset: i128 = (v as i128) - (lo as i128);
    assert(-0x1_0000_0000_0000_0000_0000 <= size * offset <= 0x1_0000_0000_0000_0000_0000)
        by (nonlinear_arith)
        requires
            0 <= size < 0x1_0000,
            -0x1_0000_0000_0000_0000 <= offset <= 0x1_0000_0000_0000_0000,
    ;
    let (q, _r) = floor_div((size as i128) * offset, d);
    assert(-0x1_0000_0000_0000_0000_0000 - 1 <= q <= 0x1_0000_0000_0000_0000_0000)
        by (nonlinear_arith)
        requires
            q * d + _r == size * offset,
            0 <= _r < d,
            -0x1_0000_0000_0000_0000_0000 <= size * offset <= 0x1_0000_0000_0000_0000_0000,
    ;
    (origin as i128) + q
}

impl<'a> World<'a> {
    /// The stored corners are the bounding box of the stored walls.
    pub open spec fn wf(&self) -> bool {
        is_extent(self.wall_list@, self.min, self.max)
    }

    /// The box is there and has room in both directions, so that points can
    /// be scaled into it.
    pub open spec fn scalable(&self) -> bool {
        &&& self.min is Some
        &&& self.max is Some
        &&& self.min->0.x < self.max->0.x
        &&& self.min->0.y < self.max->0.y
    }

    /// A world of the given walls, with its bounding box.
    pub fn new(name: &'a str, location: Option<Point>, wall_list: Vec<Point>) -> (world: World<'a>)
        ensures
            world.name == name,
            world.location == location,
            world.wall_list == wall_list,
            world.wf(),
    {
        let mut t = World { name, min: None, max: None, location, wall_list };
        t.update_min_max();
        t
    }

    /// Adds a wall point at the end of the list and recomputes the bounding box.
    pub fn add_wall_point(&mut self, new_wall_point: Point)
        ensures
            final(self).wall_list@ == old(self).wall_list@.push(new_wall_point),
            final(self).name == old(self).name,
            final(self).location == old(self).location,
            final(self).wf(),
    {
        self.wall_list.push(new_wall_point);
        self.update_min_max();
    }

    /// Recomputes the bounding box from the wall points.
    pub fn update_min_max(&mut self)
        ensures
            final(self).wall_list == old(self).wall_list,
            final(self).name == old(self).name,
            final(self).location == old(self).location,
            final(self).wf(),
    {
        let (min, max) = extent_of(&self.wall_list);
        self.min = min;
        self.max = max;
    }

    /// Removes every wall point equal to `wall_point`, keeping the others in
    /// order, and recomputes the bounding box.
    pub fn remove_wall_point(&mut self, wall_point: Point)
        ensures
            final(self).wall_list@ == old(self).wall_list@.filter(|q: Point| q != wall_point),
            final(self).name == old(self).name,
            final(self).location == old(self).location,
            final(self).wf(),
    {
        let ghost keep = |q: Point| q != wall_point;
        let n: usize = self.wall_list.len();
        let mut kept: Vec<Point> = Vec::new();
        let mut k: usize = 0;
        while k < n
            invariant
                n == self.wall_list@.len(),
                k <= n,
                keep == |q: Point| q != wall_point,
                kept@ == self.wall_list@.subrange(0, k as int).filter(keep),
            decreases n - k,
        {
            let ghost seen = self.wall_list@.subrange(0, k as int);
            let ghost more = self.wall_list@.subrange(0, k + 1);
            let p = self.wall_list[k];
            proof {
                reveal(Seq::filter);
                assert(more.drop_last() =~= seen);
                assert(more.last() == p);
            }
            if p != wall_point {
                kept.push(p);
            }
            k = k + 1;
        }
        assert(self.wall_list@.subrange(0, n as int) =~= self.wall_list@);
        self.wall_list = kept;
        self.update_min_max();
    }

    /// Whether points can be scaled into the bounding box: it is there and
    /// neither its width nor its height is zero.
    pub fn is_scalable(&self) -> (ok: bool)
        ensures
            ok == self.scalable(),
    {
        match (self.min, self.max) {
            (Some(lo), Some(hi)) => lo.x < hi.x && lo.y < hi.y,
            _ => false,
        }
    }

    /// The image of `p` when the bounding box is laid over `area`: the lower
    /// corner of the box falls on the origin of `area`, the upper corner on
    /// the origin moved by the area's width and height.
    pub fn normalize(&self, p: Point, area: Rect) -> (out: ScreenPoint)
        requires
            self.scalable(),
        ensures
            out == normalized(p, self.min->0, self.max->0, area),
    {
        let lo = self.min.unwrap();
        let hi = self.max.unwrap();
        ScreenPoint {
            x: scale_coordinate(area.x, area.width, p.x, lo.x, hi.x),
            y: scale_coordinate(area.y, area.height, p.y, lo.y, hi.y),
        }
    }

    /// What a map of this world shows in `area`: nothing where the bounding
    /// box is absent or flat, else the images of the agent's place and of
    /// every wall point, in order.
    pub fn map_view(&self, area: Rect) -> (view: Option<MapView>)
        ensures
            view is Some <==> self.scalable(),
            view matches Some(m) ==> {
                &&& m.walls@ == normalized_all(self.wall_list@, self.min->0, self.max->0, area)
                &&& m.location == match self.location {
                    Some(l) => Some(normalized(l, self.min->0, self.max->0, area)),
                    None => None,
                }
            },
    {
        if !self.is_scalable() {
            return None;
        }
        let location = match self.location {
            Some(l) => Some(self.normalize(l, area)),
            None => None,
        };
        let n: usize = self.wall_list.len();
        let mut walls: Vec<ScreenPoint> = Vec::new();
        let mut k: usize = 0;
        while k < n
            invariant
                n == self.wall_list@.len(),
                k <= n,
                self.scalable(),
                walls@.len() == k,
                forall|i: int|
                    0 <= i < k ==> #[trigger] walls@[i] == normalized(
                        self.wall_list@[i],
                        self.min->0,
                        self.max->0,
                        area,
                    ),
            decreases n - k,
        {
            walls.push(self.normalize(self.wall_list[k], area));
            k = k + 1;
        }
        assert(walls@ =~= normalized_all(self.wall_list@, self.min->0, self.max->0, area));
        Some(MapView { location, walls })
    }
}

/// A point set has at most one bounding box.
pub proof fn lemma_bounding_unique(s: Seq<Point>, lo: Point, hi: Point, lo2: Point, hi2: Point)
    requires
        bounding(s, lo, hi),
        bounding(s, lo2, hi2),
    ensures
        lo == lo2,
        hi == hi2,
{
}

/// Every point set that is not empty has a bounding box.
pub proof fn lemma_bounding_exists(s: Seq<Point>)
    requires
        s.len() > 0,
    ensures
        exists|c: (Point, Point)| bounding(s, c.0, c.1),
    decreases s.len(),
{
    let p = s.last();
    if s.len() == 1 {
        assert(s[0] == p);
        assert(bounding(s, (p, p).0, (p, p).1));
    } else {
        let t = s.drop_last();
        lemma_bounding_exists(t);
        let c = choose|c: (Point, Point)| bounding(t, c.0, c.1);
        let lo = Point {
            x: if p.x < c.0.x { p.x } else { c.0.x },
            y: if p.y < c.0.y { p.y } else { c.0.y },
        };
        let hi = Point {
            x: if p.x > c.1.x { p.x } else { c.1.x },
            y: if p.y > c.1.y { p.y } else { c.1.y },
        };
        let n = s.len() - 1;
        assert(s[n] == p);
        let a = choose|i: int| 0 <= i < t.len() && (#[trigger] t[i]).x == c.0.x;
        let b = choose|i: int| 0 <= i < t.len() && (#[trigger] t[i]).y == c.0.y;
        let d = choose|i: int| 0 <= i < t.len() && (#[trigger] t[i]).x == c.1.x;
        let e = choose|i: int| 0 <= i < t.len() && (#[trigger] t[i]).y == c.1.y;
        assert(s[a] == t[a] && s[b] == t[b] && s[d] == t[d] && s[e] == t[e]);
        assert forall|i: int| 0 <= i < s.len() implies lo.x <= (#[trigger] s[i]).x <= hi.x && lo.y
            <= s[i].y <= hi.y by {
            if i < n {
                assert(s[i] == t[i]);
            }
        }
        assert(bounding(s, (lo, hi).0, (lo, hi).1));
    }
}

/// `extent` gives the bounding box, and nothing else is one.
pub proof fn lemma_extent(s: Seq<Point>, min: Option<Point>, max: Option<Point>)
    ensures
        is_extent(s, extent(s).0, extent(s).1),
        is_extent(s, min, max) <==> extent(s) == (min, max),
{
    if s.len() > 0 {
        lemma_bounding_exists(s);
        let c = choose|c: (Point, Point)| bounding(s, c.0, c.1);
        if let (Some(lo), Some(hi)) = (min, max) {
            if bounding(s, lo, hi) {
                lemma_bounding_unique(s, lo, hi, c.0, c.1);
            }
        }
    } else {
        if let (Some(lo), Some(hi)) = (min, max) {
            if bounding(s, lo, hi) {
                lemma_bounding_ordered(s, lo, hi);
            }
        }
    }
}

/// A bounding box exists only around at least one point, and its corners
/// are in order.
pub proof fn lemma_bounding_ordered(s: Seq<Point>, lo: Point, hi: Point)
    requires
        bounding(s, lo, hi),
    ensures
        s.len() > 0,
        lo.x <= hi.x,
        lo.y <= hi.y,
{
}

/// The bounding box is absent exactly when there are no points.
pub proof fn lemma_extent_absent_iff_empty(s: Seq<Point>, min: Option<Point>, max: Option<Point>)
    requires
        is_extent(s, min, max),
    ensures
        min is None <==> s.len() == 0,
        max is None <==> s.len() == 0,
{
    if let (Some(lo), Some(hi)) = (min, max) {
        lemma_bounding_ordered(s, lo, hi);
    }
}

/// The lower corner of the box is drawn at the origin of the area.
pub proof fn lemma_normalized_min(lo: Point, hi: Point, area: Rect)
    requires
        lo.x < hi.x,
        lo.y < hi.y,
    ensures
        normalized(lo, lo, hi, area) == (ScreenPoint { x: area.x as i128, y: area.y as i128 }),
{
    let dx = hi.x - lo.x;
    let dy = hi.y - lo.y;
    assert((area.width * (lo.x - lo.x)) / dx == 0) by (nonlinear_arith)
        requires
            dx > 0,
    ;
    assert((area.height * (lo.y - lo.y)) / dy == 0) by (nonlinear_arith)
        requires
            dy > 0,
    ;
}

/// The upper corner of the box is drawn at the origin of the area moved by
/// the area's width and height.
pub proof fn lemma_normalized_max(lo: Point, hi: Point, area: Rect)
    requires
        lo.x < hi.x,
        lo.y < hi.y,
    ensures
        normalized(hi, lo, hi, area) == (ScreenPoint {
            x: (area.x + area.width) as i128,
            y: (area.y + area.height) as i128,
        }),
{
    let dx = hi.x - lo.x;
    let dy = hi.y - lo.y;
    vstd::arithmetic::div_mod::lemma_div_multiples_vanish(area.width as int, dx);
    vstd::arithmetic::div_mod::lemma_div_multiples_vanish(area.height as int, dy);
    assert(area.width * (hi.x - lo.x) == dx * area.width) by (nonlinear_arith)
        requires
            dx == hi.x - lo.x,
    ;
    assert(area.height * (hi.y - lo.y) == dy * area.height) by (nonlinear_arith)
        requires
            dy == hi.y - lo.y,
    ;
}

} // verus!
