//! Planar source geometry: points, lines, polygons and their collections.
//!
//! A ring carries, beside its vertices, the direction in which it is wound as
//! the caller determined it. The library never computes with coordinates, so
//! it cannot find that direction itself.

use vstd::prelude::*;

verus! {

/// A position in the plane.
#[derive(Clone, Copy, Debug, PartialEq)]
pub struct Coord<T> {
    pub x: T,
    pub y: T,
}

/// A single position as a geometry.
#[derive(Clone, Copy, Debug, PartialEq)]
pub struct Point<T>(pub Coord<T>);

/// A segment between two positions.
#[derive(Clone, Copy, Debug, PartialEq)]
pub struct Line<T> {
    pub start: Coord<T>,
    pub end: Coord<T>,
}

/// A chain of vertices, open or closed.
#[derive(Clone, Debug, PartialEq)]
pub struct LineString<T>(pub Vec<Coord<T>>);

impl<T> View for LineString<T> {
    type V = Seq<Coord<T>>;

    open spec fn view(&self) -> Seq<Coord<T>> {
        self.0@
    }
}

/// The rotational sense in which a ring lists its vertices, with `x` growing
/// to the right and `y` growing upwards.
#[derive(Clone, Copy, Debug, PartialEq, Eq, Structural)]
pub enum WindingOrder {
    Clockwise,
    CounterClockwise,
}

/// A ring of a polygon: its vertices, and the direction in which they run.
///
/// `winding` is `None` where the ring has no direction: it is open, has too
/// few distinct vertices, or encloses no area.
#[derive(Clone, Debug, PartialEq)]
pub struct Ring<T> {
    pub line: LineString<T>,
    pub winding: Option<WindingOrder>,
}

impl<T> Ring<T> {
    /// The ring was found to run clockwise.
    pub open spec fn is_clockwise(&self) -> bool {
        self.winding == Some(WindingOrder::Clockwise)
    }
}

/// One outer boundary and the holes cut out of it.
#[derive(Clone, Debug, PartialEq)]
pub struct Polygon<T> {
    pub exterior: Ring<T>,
    pub interiors: Vec<Ring<T>>,
}

impl<T> Polygon<T> {
    /// Every ring of the polygon: the outer boundary, then the holes.
    pub open spec fn rings(&self) -> Seq<Ring<T>> {
        seq![self.exterior] + self.interiors@
    }
}

/// Every ring of a run of polygons, polygon after polygon.
pub open spec fn rings_of<T>(ps: Seq<Polygon<T>>) -> Seq<Ring<T>> {
    ps.map_values(|p: Polygon<T>| p.rings()).flatten()
}

/// The number of rings in a run of polygons: for each polygon one, and one
/// more for each of its holes.
pub open spec fn ring_count<T>(ps: Seq<Polygon<T>>) -> nat
    decreases ps.len(),
{
    if ps.len() == 0 {
        0
    } else {
        ring_count(ps.drop_last()) + 1 + ps.last().interiors@.len()
    }
}

/// Every vertex of a run of rings, ring after ring.
pub open spec fn ring_coords<T>(rs: Seq<Ring<T>>) -> Seq<Coord<T>> {
    rs.map_values(|r: Ring<T>| r.line@).flatten()
}

/// A vertex chain that ends where it starts.
pub open spec fn is_closed<A>(s: Seq<A>) -> bool {
    s.len() > 0 && s.first() == s.last()
}

/// A collection of positions.
#[derive(Clone, Debug, PartialEq)]
pub struct MultiPoint<T>(pub Vec<Point<T>>);

/// A collection of vertex chains.
#[derive(Clone, Debug, PartialEq)]
pub struct MultiLineString<T>(pub Vec<LineString<T>>);

/// A collection of polygons.
#[derive(Clone, Debug, PartialEq)]
pub struct MultiPolygon<T>(pub Vec<Polygon<T>>);

/// An axis-aligned box, given by two opposite corners, with the direction of
/// its boundary as `Rect::boundary` lists it.
#[derive(Clone, Copy, Debug, PartialEq)]
pub struct Rect<T> {
    pub min: Coord<T>,
    pub max: Coord<T>,
    pub winding: Option<WindingOrder>,
}

/// Three vertices, with the direction of the closed ring through them in the
/// order given.
#[derive(Clone, Copy, Debug, PartialEq)]
pub struct Triangle<T> {
    pub a: Coord<T>,
    pub b: Coord<T>,
    pub c: Coord<T>,
    pub winding: Option<WindingOrder>,
}

impl<T> Rect<T> {
    /// The four corners as a closed ring: from the corner of greatest `x` and
    /// least `y`, up, across, down, and back to the start.
    pub open spec fn boundary(&self) -> Seq<Coord<T>> {
        seq![
            Coord { x: self.max.x, y: self.min.y },
            Coord { x: self.max.x, y: self.max.y },
            Coord { x: self.min.x, y: self.max.y },
            Coord { x: self.min.x, y: self.min.y },
            Coord { x: self.max.x, y: self.min.y },
        ]
    }
}

impl<T: Copy> Rect<T> {
    /// The box as a polygon without holes, bounded by `boundary`.
    pub fn to_polygon(&self) -> (p: Polygon<T>)
        ensures
            p.exterior.line@ == self.boundary(),
            p.exterior.winding == self.winding,
            p.interiors@.len() == 0,
    {
        let mut ring: Vec<Coord<T>> = Vec::with_capacity(5);
        ring.push(Coord { x: self.max.x, y: self.min.y });
        ring.push(Coord { x: self.max.x, y: self.max.y });
        ring.push(Coord { x: self.min.x, y: self.max.y });
        ring.push(Coord { x: self.min.x, y: self.min.y });
        ring.push(Coord { x: self.max.x, y: self.min.y });
        assert(ring@ =~= self.boundary());
        Polygon {
            exterior: Ring { line: LineString(ring), winding: self.winding },
            interiors: Vec::new(),
        }
    }
}

impl<T> Triangle<T> {
    /// The three vertices as a closed ring: `a`, `b`, `c`, and `a` again.
    pub open spec fn boundary(&self) -> Seq<Coord<T>> {
        seq![self.a, self.b, self.c, self.a]
    }
}

impl<T: Copy> Triangle<T> {
    /// The triangle as a polygon without holes, bounded by `boundary`.
    pub fn to_polygon(&self) -> (p: Polygon<T>)
        ensures
            p.exterior.line@ == self.boundary(),
            p.exterior.winding == self.winding,
            p.interiors@.len() == 0,
    {
        let mut ring: Vec<Coord<T>> = Vec::with_capacity(4);
        ring.push(self.a);
        ring.push(self.b);
        ring.push(self.c);
        ring.push(self.a);
        assert(ring@ =~= self.boundary());
        Polygon {
            exterior: Ring { line: LineString(ring), winding: self.winding },
            interiors: Vec::new(),
        }
    }
}

/// A bag of geometries of any kind.
#[derive(Debug, PartialEq)]
pub struct GeometryCollection<T>(pub Vec<Geometry<T>>);

/// Any planar geometry, told apart by its variant.
#[derive(Debug, PartialEq)]
pub enum Geometry<T> {
    Point(Point<T>),
    Line(Line<T>),
    LineString(LineString<T>),
    Polygon(Polygon<T>),
    MultiPoint(MultiPoint<T>),
    MultiLineString(MultiLineString<T>),
    MultiPolygon(MultiPolygon<T>),
    GeometryCollection(GeometryCollection<T>),
    Rect(Rect<T>),
    Triangle(Triangle<T>),
}

impl<T> Geometry<T> {
    /// Every position that the geometry consists of, in the order in which
    /// it lists them. A box and a triangle consist of their boundary; the
    /// members of a collection are not looked into.
    pub open spec fn coords(&self) -> Seq<Coord<T>> {
        match *self {
            Geometry::Point(p) => seq![p.0],
            Geometry::Line(l) => seq![l.start, l.end],
            Geometry::LineString(l) => l@,
            Geometry::Polygon(p) => ring_coords(p.rings()),
            Geometry::MultiPoint(m) => m.0@.map_values(|p: Point<T>| p.0),
            Geometry::MultiLineString(m) => m.0@.map_values(|l: LineString<T>| l@).flatten(),
            Geometry::MultiPolygon(m) => ring_coords(rings_of(m.0@)),
            Geometry::GeometryCollection(_) => Seq::empty(),
            Geometry::Rect(r) => r.boundary(),
            Geometry::Triangle(t) => t.boundary(),
        }
    }
}

} // verus!
