//! Grace-area geometry: the tolerance polygon between a submenu trigger and
//! its panel, and the ray-casting test that tells whether the pointer is still
//! inside it. Coordinates are whole pixels; every comparison is exact.

use vstd::prelude::*;

verus! {

/// A point of the viewport, in whole pixels.
#[derive(Clone, Copy, Debug, PartialEq, Eq, Structural)]
pub struct Point {
    pub x: i32,
    pub y: i32,
}

/// The bounding rectangle of a panel.
#[derive(Clone, Copy, Debug, PartialEq, Eq, Structural)]
pub struct PanelRect {
    pub left: i32,
    pub right: i32,
    pub top: i32,
    pub bottom: i32,
}

/// A horizontal side: where a panel opens, or where the pointer is heading.
#[derive(Clone, Copy, Debug, PartialEq, Eq, Hash, Structural)]
pub enum Side {
    Left,
    Right,
}

/// Why a geometric value was refused.
#[derive(Clone, Copy, Debug, PartialEq, Eq, Structural)]
pub enum GeometryError {
    /// A polygon needs at least three points.
    InvalidGeometry,
}

/// The index of the vertex before `i` in a closed polygon of `n` vertices.
pub open spec fn previous_index(i: int, n: int) -> int {
    if i == 0 {
        n - 1
    } else {
        i - 1
    }
}

/// The horizontal ray from `p` to the right crosses the edge between `a` and
/// `b`: `p.y` lies between the two ends (one end included, the other not) and
/// `p.x` is strictly left of the edge at that height. The interpolated
/// abscissa `(b.x - a.x) * (p.y - a.y) / (b.y - a.y) + a.x` is compared after
/// multiplying through by `b.y - a.y`, so nothing is rounded. A level edge
/// never crosses.
pub open spec fn edge_crosses(p: Point, a: Point, b: Point) -> bool {
    &&& (a.y > p.y) != (b.y > p.y)
    &&& if b.y > a.y {
        (p.x - a.x) * (b.y - a.y) < (b.x - a.x) * (p.y - a.y)
    } else {
        (p.x - a.x) * (b.y - a.y) > (b.x - a.x) * (p.y - a.y)
    }
}

/// How many of the first `upto` edges the ray from `p` crosses; edge `i` joins
/// vertex `i` to the vertex before it.
pub open spec fn crossings(p: Point, polygon: Seq<Point>, upto: nat) -> nat
    decreases upto,
{
    if upto == 0 {
        0
    } else {
        let i = (upto - 1) as nat;
        let hit: nat = if edge_crosses(
            p,
            polygon[i as int],
            polygon[previous_index(i as int, polygon.len() as int)],
        ) {
            1
        } else {
            0
        };
        crossings(p, polygon, i) + hit
    }
}

/// `p` is inside the closed polygon: the ray crosses its outline an odd number
/// of times.
pub open spec fn inside_polygon(p: Point, polygon: Seq<Point>) -> bool {
    crossings(p, polygon, polygon.len()) % 2 == 1
}

proof fn lemma_product_fits(a: int, b: int)
    requires
        -0x1_0000_0000 < a < 0x1_0000_0000,
        -0x1_0000_0000 < b < 0x1_0000_0000,
    ensures
        -0x1_0000_0000_0000_0000 < a * b < 0x1_0000_0000_0000_0000,
{
    assert(-0x1_0000_0000_0000_0000 < a * b < 0x1_0000_0000_0000_0000) by (nonlinear_arith)
        requires
            -0x1_0000_0000 < a < 0x1_0000_0000,
            -0x1_0000_0000 < b < 0x1_0000_0000,
    ;
}

/// Tests one edge of the outline.
pub fn ray_crosses_edge(p: Point, a: Point, b: Point) -> (crosses: bool)
    ensures
        crosses == edge_crosses(p, a, b),
{
    if (a.y > p.y) == (b.y > p.y) {
        return false;
    }
    let dx: i64 = p.x as i64 - a.x as i64;
    let dy: i64 = b.y as i64 - a.y as i64;
    let ex: i64 = b.x as i64 - a.x as i64;
    let ey: i64 = p.y as i64 - a.y as i64;
    proof {
        lemma_product_fits(dx as int, dy as int);
        lemma_product_fits(ex as int, ey as int);
    }
    let lhs: i128 = (dx as i128) * (dy as i128);
    let rhs: i128 = (ex as i128) * (ey as i128);
    if dy > 0 {
        lhs < rhs
    } else {
        lhs > rhs
    }
}

fn count_parity(point: Point, polygon: &Vec<Point>) -> (inside: bool)
    requires
        polygon@.len() >= 1,
    ensures
        inside == inside_polygon(point, polygon@),
{
    let n: usize = polygon.len();
    let mut inside: bool = false;
    let mut i: usize = 0;
    let mut j: usize = n - 1;
    while i < n
        invariant
            n == polygon@.len(),
            i <= n,
            j < n,
            i < n ==> j as int == previous_index(i as int, n as int),
            inside == (crossings(point, polygon@, i as nat) % 2 == 1),
        decreases n - i,
    {
        if ray_crosses_edge(point, polygon[i], polygon[j]) {
            inside = !inside;
        }
        j = i;
        i += 1;
    }
    inside
}

/// Tells whether `point` is inside the closed polygon, by ray casting. A
/// polygon of fewer than three points is refused.
pub fn is_point_in_polygon(point: Point, polygon: &Vec<Point>) -> (result: Result<
    bool,
    GeometryError,
>)
    ensures
        result is Err <==> polygon@.len() < 3,
        result is Err ==> result == Err::<bool, GeometryError>(GeometryError::InvalidGeometry),
        result is Ok ==> result == Ok::<bool, GeometryError>(inside_polygon(point, polygon@)),
{
    if polygon.len() < 3 {
        return Err(GeometryError::InvalidGeometry);
    }
    Ok(count_parity(point, polygon))
}

/// An ordered outline of at least three points, closed from the last point
/// back to the first.
#[derive(Debug)]
pub struct Polygon {
    points: Vec<Point>,
}

impl View for Polygon {
    type V = Seq<Point>;

    closed spec fn view(&self) -> Seq<Point> {
        self.points@
    }
}

impl Polygon {
    #[verifier::type_invariant]
    spec fn has_three_points(self) -> bool {
        self.points@.len() >= 3
    }

    /// Takes the points as an outline, or refuses fewer than three.
    pub fn new(points: Vec<Point>) -> (result: Result<Polygon, GeometryError>)
        ensures
            result is Err <==> points@.len() < 3,
            result matches Err(error) ==> error == GeometryError::InvalidGeometry,
            result matches Ok(polygon) ==> polygon@ == points@,
    {
        if points.len() < 3 {
            return Err(GeometryError::InvalidGeometry);
        }
        Ok(Polygon { points })
    }

    /// The points in order.
    pub fn points(&self) -> (points: &Vec<Point>)
        ensures
            points@ == self@,
            points@.len() >= 3,
    {
        proof {
            use_type_invariant(self);
        }
        &self.points
    }

    /// Tells whether `point` is inside the polygon.
    pub fn contains(&self, point: Point) -> (inside: bool)
        ensures
            inside == inside_polygon(point, self@),
    {
        proof {
            use_type_invariant(self);
        }
        count_parity(point, &self.points)
    }
}

impl Clone for Polygon {
    fn clone(&self) -> (copy: Polygon)
        ensures
            copy@ == self@,
    {
        proof {
            use_type_invariant(self);
        }
        let mut points: Vec<Point> = Vec::new();
        let mut i: usize = 0;
        while i < self.points.len()
            invariant
                i <= self.points@.len(),
                points@ == self.points@.subrange(0, i as int),
            decreases self.points@.len() - i,
        {
            points.push(self.points[i]);
            assert(points@ =~= self.points@.subrange(0, i + 1));
            i += 1;
        }
        assert(points@ =~= self.points@);
        Polygon { points }
    }
}

/// The horizontal offset of a grace area's first point: towards the trigger,
/// so negative for a panel on the right and positive for one on the left.
pub open spec fn bleed_offset(side: Side, bleed: int) -> int {
    match side {
        Side::Right => -bleed,
        Side::Left => bleed,
    }
}

/// The five points of a grace area: the pointer moved by the bleed, then the
/// panel's corners from its near edge at the top, over its far edge, back to
/// its near edge at the bottom.
pub open spec fn grace_area(pointer: Point, panel: PanelRect, side: Side, bleed: int) -> Seq<
    Point,
> {
    let near = match side {
        Side::Right => panel.left,
        Side::Left => panel.right,
    };
    let far = match side {
        Side::Right => panel.right,
        Side::Left => panel.left,
    };
    seq![
        Point { x: (pointer.x + bleed_offset(side, bleed)) as i32, y: pointer.y },
        Point { x: near, y: panel.top },
        Point { x: far, y: panel.top },
        Point { x: far, y: panel.bottom },
        Point { x: near, y: panel.bottom },
    ]
}

/// Builds the grace area between the pointer, as it leaves a trigger, and the
/// panel that opened on `side`. The shifted abscissa has to be a coordinate.
pub fn compute_grace_area(pointer: Point, panel: PanelRect, side: Side, bleed: i32) -> (area:
    Polygon)
    requires
        i32::MIN <= pointer.x + bleed_offset(side, bleed as int) <= i32::MAX,
    ensures
        area@ == grace_area(pointer, panel, side, bleed as int),
        area@.len() == 5,
        area@[0].x == pointer.x + bleed_offset(side, bleed as int),
        area@[0].y == pointer.y,
{
    let right_side: bool = match side {
        Side::Right => true,
        Side::Left => false,
    };
    let shifted: i64 = if right_side {
        pointer.x as i64 - bleed as i64
    } else {
        pointer.x as i64 + bleed as i64
    };
    let near: i32 = if right_side {
        panel.left
    } else {
        panel.right
    };
    let far: i32 = if right_side {
        panel.right
    } else {
        panel.left
    };
    let mut points: Vec<Point> = Vec::new();
    points.push(Point { x: shifted as i32, y: pointer.y });
    points.push(Point { x: near, y: panel.top });
    points.push(Point { x: far, y: panel.top });
    points.push(Point { x: far, y: panel.bottom });
    points.push(Point { x: near, y: panel.bottom });
    assert(points@ =~= grace_area(pointer, panel, side, bleed as int));
    Polygon { points }
}

/// The pointer-exit region that is tolerated at the moment, and the side of
/// the trigger it extends to.
#[derive(Clone, Debug)]
pub struct GraceIntent {
    pub area: Polygon,
    pub side: Side,
}

impl GraceIntent {
    pub fn new(area: Polygon, side: Side) -> (intent: GraceIntent)
        ensures
            intent.area == area,
            intent.side == side,
    {
        GraceIntent { area, side }
    }
}

/// The pointer is inside the area, if there is one.
pub open spec fn in_grace_area(pointer: Point, area: Option<Seq<Point>>) -> bool {
    match area {
        Some(points) => inside_polygon(pointer, points),
        None => false,
    }
}

/// The pointer heads for the submenu: there is an intent, it extends to the
/// side the pointer is moving to, and the pointer is inside its area.
pub open spec fn moving_toward_submenu(
    pointer_dir: Side,
    intent: Option<GraceIntent>,
    pointer: Point,
) -> bool {
    match intent {
        Some(intent) => intent.side == pointer_dir && inside_polygon(pointer, intent.area@),
        None => false,
    }
}

/// Tells whether the pointer is inside the grace area; without an area it is
/// not.
pub fn is_pointer_in_grace_area(pointer: Point, area: Option<&Polygon>) -> (inside: bool)
    ensures
        inside == in_grace_area(
            pointer,
            match area {
                Some(polygon) => Some(polygon@),
                None => None,
            },
        ),
        area is None ==> !inside,
{
    match area {
        Some(polygon) => polygon.contains(pointer),
        None => false,
    }
}

/// Tells whether the pointer is moving towards the open submenu. Without an
/// intent the answer is no, wherever the pointer is.
pub fn is_moving_toward_submenu(pointer_dir: Side, intent: Option<&GraceIntent>, pointer: Point) -> (
    moving: bool
)
    ensures
        moving == match intent {
            Some(intent) => intent.side == pointer_dir && inside_polygon(pointer, intent.area@),
            None => false,
        },
        intent is None ==> !moving,
{
    match intent {
        Some(intent) => intent.side == pointer_dir && is_pointer_in_grace_area(
            pointer,
            Some(&intent.area),
        ),
        None => false,
    }
}

/// The side the pointer moves to when its abscissa goes from `last_x` to `x`,
/// or `kept` when it has not changed.
pub open spec fn direction_after(kept: Side, last_x: int, x: int) -> Side {
    if x == last_x {
        kept
    } else if x > last_x {
        Side::Right
    } else {
        Side::Left
    }
}

/// What a tracker holds, as a mathematical value.
pub struct GraceTrackerModel {
    pub intent: Option<GraceIntent>,
    pub pointer_dir: Side,
    pub last_pointer_x: int,
}

/// Keeps the current grace intent and the pointer's horizontal direction for
/// one menu content.
pub struct GraceAreaTracker {
    intent: Option<GraceIntent>,
    pointer_dir: Side,
    last_pointer_x: i32,
}

impl View for GraceAreaTracker {
    type V = GraceTrackerModel;

    closed spec fn view(&self) -> GraceTrackerModel {
        GraceTrackerModel {
            intent: self.intent,
            pointer_dir: self.pointer_dir,
            last_pointer_x: self.last_pointer_x as int,
        }
    }
}

impl GraceAreaTracker {
    /// A tracker without intent, the pointer taken to head right from
    /// abscissa zero.
    pub fn new() -> (tracker: GraceAreaTracker)
        ensures
            tracker@.intent is None,
            tracker@.pointer_dir == Side::Right,
            tracker@.last_pointer_x == 0,
    {
        GraceAreaTracker { intent: None, pointer_dir: Side::Right, last_pointer_x: 0 }
    }

    /// Replaces the intent as a whole; `None` clears it.
    pub fn set_intent(&mut self, intent: Option<GraceIntent>)
        ensures
            final(self)@.intent == intent,
            final(self)@.pointer_dir == old(self)@.pointer_dir,
            final(self)@.last_pointer_x == old(self)@.last_pointer_x,
    {
        self.intent = intent;
    }

    /// The current intent.
    pub fn get_intent(&self) -> (intent: Option<&GraceIntent>)
        ensures
            intent is Some == self@.intent is Some,
            intent matches Some(found) ==> self@.intent == Some(*found),
    {
        self.intent.as_ref()
    }

    /// The side the pointer was last seen moving to.
    pub fn pointer_dir(&self) -> (side: Side)
        ensures
            side == self@.pointer_dir,
    {
        self.pointer_dir
    }

    /// Takes the pointer's abscissa from a move inside the content: a changed
    /// abscissa sets the direction and is remembered; the intent stays.
    pub fn on_pointer_move(&mut self, x: i32)
        ensures
            final(self)@.intent == old(self)@.intent,
            final(self)@.pointer_dir == direction_after(
                old(self)@.pointer_dir,
                old(self)@.last_pointer_x,
                x as int,
            ),
            final(self)@.last_pointer_x == x,
    {
        if x != self.last_pointer_x {
            self.pointer_dir = if x > self.last_pointer_x {
                Side::Right
            } else {
                Side::Left
            };
            self.last_pointer_x = x;
        }
    }

    /// Tells whether the pointer is inside the current grace area.
    pub fn is_pointer_in_grace_area(&self, pointer: Point) -> (inside: bool)
        ensures
            inside == match self@.intent {
                Some(intent) => inside_polygon(pointer, intent.area@),
                None => false,
            },
    {
        match &self.intent {
            Some(intent) => intent.area.contains(pointer),
            None => false,
        }
    }

    /// Tells whether the pointer is moving towards the submenu, by the
    /// direction and the intent the tracker holds.
    pub fn is_pointer_moving_to_submenu(&self, pointer: Point) -> (moving: bool)
        ensures
            moving == moving_toward_submenu(self@.pointer_dir, self@.intent, pointer),
    {
        is_moving_toward_submenu(self.pointer_dir, self.intent.as_ref(), pointer)
    }
}

/// An edge whose two ends are at the same height is never crossed, so the
/// interpolation never divides by zero.
pub proof fn lemma_level_edge_never_crosses(p: Point, a: Point, b: Point)
    requires
        a.y == b.y,
    ensures
        !edge_crosses(p, a, b),
{
}

/// Whether the ray crosses an edge does not depend on the order in which the
/// edge's two ends are given.
pub proof fn lemma_edge_has_no_direction(p: Point, a: Point, b: Point)
    ensures
        edge_crosses(p, a, b) == edge_crosses(p, b, a),
{
    let px = p.x as int;
    let py = p.y as int;
    let ax = a.x as int;
    let ay = a.y as int;
    let bx = b.x as int;
    let by = b.y as int;
    assert((px - ax) * (by - ay) - (bx - ax) * (py - ay) == -((px - bx) * (ay - by) - (ax - bx) * (
        py - by))) by (nonlinear_arith);
}

/// The ray from a point that is not left of either end of an edge does not
/// cross the edge.
pub proof fn lemma_edge_left_of_point_is_not_crossed(p: Point, a: Point, b: Point)
    requires
        a.x <= p.x,
        b.x <= p.x,
    ensures
        !edge_crosses(p, a, b),
{
    let px = p.x as int;
    let py = p.y as int;
    let ax = a.x as int;
    let ay = a.y as int;
    let bx = b.x as int;
    let by = b.y as int;
    if (ay > py) != (by > py) {
        if by > ay {
            assert((px - ax) * (by - ay) >= (bx - ax) * (py - ay)) by (nonlinear_arith)
                requires
                    ax <= px,
                    bx <= px,
                    ay <= py < by,
            ;
        } else {
            assert((px - ax) * (by - ay) <= (bx - ax) * (py - ay)) by (nonlinear_arith)
                requires
                    ax <= px,
                    bx <= px,
                    by <= py < ay,
            ;
        }
    }
}

/// A point that is not left of any vertex is outside the polygon: the ray
/// from it crosses nothing.
pub proof fn lemma_point_right_of_polygon_is_outside(p: Point, polygon: Seq<Point>)
    requires
        forall|i: int| 0 <= i < polygon.len() ==> (#[trigger] polygon[i]).x <= p.x,
    ensures
        crossings(p, polygon, polygon.len()) == 0,
        !inside_polygon(p, polygon),
{
    lemma_no_crossings_upto(p, polygon, polygon.len());
}

proof fn lemma_no_crossings_upto(p: Point, polygon: Seq<Point>, upto: nat)
    requires
        upto <= polygon.len(),
        forall|i: int| 0 <= i < polygon.len() ==> (#[trigger] polygon[i]).x <= p.x,
    ensures
        crossings(p, polygon, upto) == 0,
    decreases upto,
{
    if upto > 0 {
        let i = (upto - 1) as int;
        let j = previous_index(i, polygon.len() as int);
        lemma_no_crossings_upto(p, polygon, (upto - 1) as nat);
        lemma_edge_left_of_point_is_not_crossed(p, polygon[i], polygon[j]);
    }
}

/// A grace area always has five points, so it is a polygon; its first point
/// is the pointer moved towards the trigger by the bleed, at the pointer's
/// height.
pub proof fn lemma_grace_area_shape(pointer: Point, panel: PanelRect, side: Side, bleed: int)
    requires
        i32::MIN <= pointer.x + bleed_offset(side, bleed) <= i32::MAX,
    ensures
        grace_area(pointer, panel, side, bleed).len() == 5,
        grace_area(pointer, panel, side, bleed)[0].x == pointer.x + bleed_offset(side, bleed),
        grace_area(pointer, panel, side, bleed)[0].y == pointer.y,
        side == Side::Right ==> grace_area(pointer, panel, side, bleed)[0].x == pointer.x - bleed,
        side == Side::Left ==> grace_area(pointer, panel, side, bleed)[0].x == pointer.x + bleed,
{
}

/// Without an intent the pointer is never moving towards the submenu,
/// wherever it is and whichever way it heads.
pub proof fn lemma_no_intent_no_submenu_move(pointer_dir: Side, pointer: Point)
    ensures
        !moving_toward_submenu(pointer_dir, None, pointer),
        !in_grace_area(pointer, None),
{
}

} // verus!
