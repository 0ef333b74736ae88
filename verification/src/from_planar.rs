//! The conversions from planar geometry to Esri geometry objects.
//!
//! A coordinate is copied number by number. A path keeps its vertices in
//! their order. A ring keeps its vertices too, but may list them backwards:
//! an outer boundary leaves clockwise, a hole counter-clockwise.

use vstd::prelude::*;
use crate::geometry::{
    coords_view, lines_view, EsriCoord, EsriGeometry, EsriGeometryView, EsriLineString,
    EsriMultiPoint, EsriPoint, EsriPolygon, EsriPolyline,
};
use crate::guarantees::lemma_multi_polygon_ring_for_ring;
use crate::planar::{
    ring_count, Coord, Geometry, Line, LineString, MultiLineString, MultiPoint, MultiPolygon,
    Point, Polygon, Rect, Ring, Triangle, WindingOrder,
};

verus! {

/// The numbers of a planar position as an Esri coordinate holds them.
pub open spec fn esri_coord<T>(c: Coord<T>) -> Seq<T> {
    seq![c.x, c.y]
}

/// The positions of a vertex chain, in order.
pub open spec fn esri_path<T>(s: Seq<Coord<T>>) -> Seq<Seq<T>> {
    s.map_values(|c: Coord<T>| esri_coord(c))
}

/// The positions of a vertex chain, forwards or backwards.
pub open spec fn esri_path_directed<T>(s: Seq<Coord<T>>, backwards: bool) -> Seq<Seq<T>> {
    if backwards {
        esri_path(s.reverse())
    } else {
        esri_path(s)
    }
}

/// An outer boundary as it is emitted: unchanged where it runs clockwise,
/// backwards otherwise.
pub open spec fn exterior_ring<T>(r: Ring<T>) -> Seq<Seq<T>> {
    esri_path_directed(r.line@, !r.is_clockwise())
}

/// A hole as it is emitted: backwards where it runs clockwise, unchanged
/// otherwise.
pub open spec fn interior_ring<T>(r: Ring<T>) -> Seq<Seq<T>> {
    esri_path_directed(r.line@, r.is_clockwise())
}

/// The rings that one polygon contributes: its outer boundary, then its holes
/// in their order.
pub open spec fn polygon_rings<T>(p: Polygon<T>) -> Seq<Seq<Seq<T>>> {
    seq![exterior_ring(p.exterior)] + p.interiors@.map_values(|r: Ring<T>| interior_ring(r))
}

/// The rings of a run of polygons: those of the first, then those of the
/// second, and so on, with nothing to mark where one polygon ends.
pub open spec fn multi_polygon_rings<T>(ps: Seq<Polygon<T>>) -> Seq<Seq<Seq<T>>> {
    ps.map_values(|p: Polygon<T>| polygon_rings(p)).flatten()
}

/// The positions of a run of points, in order.
pub open spec fn esri_points<T>(ps: Seq<Point<T>>) -> Seq<Seq<T>> {
    ps.map_values(|p: Point<T>| esri_coord(p.0))
}

/// The paths of a run of vertex chains, in order.
pub open spec fn esri_paths<T>(ls: Seq<LineString<T>>) -> Seq<Seq<Seq<T>>> {
    ls.map_values(|l: LineString<T>| esri_path(l@))
}

/// The one ring of a shape without holes: its boundary, clockwise.
pub open spec fn boundary_ring<T>(boundary: Seq<Coord<T>>, winding: Option<WindingOrder>) -> Seq<
    Seq<T>,
> {
    esri_path_directed(boundary, winding != Some(WindingOrder::Clockwise))
}

/// What a planar geometry converts to: `None` for a collection, which no
/// geometry object can hold, and the point data of the result otherwise.
pub open spec fn esri_geometry<T>(g: Geometry<T>) -> Option<EsriGeometryView<T>> {
    match g {
        Geometry::Point(p) => Some(EsriGeometryView::Point(esri_coord(p.0))),
        Geometry::MultiPoint(m) => Some(EsriGeometryView::MultiPoint(esri_points(m.0@))),
        Geometry::Line(l) => Some(
            EsriGeometryView::Polyline(seq![seq![esri_coord(l.start), esri_coord(l.end)]]),
        ),
        Geometry::LineString(l) => Some(EsriGeometryView::Polyline(seq![esri_path(l@)])),
        Geometry::MultiLineString(m) => Some(EsriGeometryView::Polyline(esri_paths(m.0@))),
        Geometry::Polygon(p) => Some(EsriGeometryView::Polygon(polygon_rings(p))),
        Geometry::MultiPolygon(m) => Some(EsriGeometryView::Polygon(multi_polygon_rings(m.0@))),
        Geometry::Rect(r) => Some(
            EsriGeometryView::Polygon(seq![boundary_ring(r.boundary(), r.winding)]),
        ),
        Geometry::Triangle(t) => Some(
            EsriGeometryView::Polygon(seq![boundary_ring(t.boundary(), t.winding)]),
        ),
        Geometry::GeometryCollection(_) => None,
    }
}

/// Taking one more polygon appends exactly that polygon's rings.
proof fn lemma_multi_polygon_rings_step<T>(ps: Seq<Polygon<T>>, i: int)
    requires
        0 <= i < ps.len(),
    ensures
        multi_polygon_rings(ps.take(i + 1)) == multi_polygon_rings(ps.take(i)) + polygon_rings(
            ps[i],
        ),
{
    let f = |p: Polygon<T>| polygon_rings(p);
    assert(ps.take(i + 1).map_values(f) =~= ps.take(i).map_values(f).push(f(ps[i])));
    ps.take(i).map_values(f).lemma_flatten_push(f(ps[i]));
}

impl<T: Copy> Coord<T> {
    /// Copies `x` and `y`, in this order, into a coordinate of two numbers.
    pub fn to_esri_coord(&self) -> (r: EsriCoord<T, 2>)
        ensures
            r@ == esri_coord(*self),
    {
        let r = EsriCoord([self.x, self.y]);
        assert(r.0@ =~= seq![self.x, self.y]);
        r
    }
}

impl<T: Copy> LineString<T> {
    /// Converts every vertex, walking the chain from its last vertex to its
    /// first where `backwards` is set and from first to last otherwise.
    pub fn to_esri_line_string_directed(&self, backwards: bool) -> (r: EsriLineString<T, 2>)
        ensures
            r@ == esri_path_directed(self@, backwards),
    {
        let n = self.0.len();
        let mut coords: Vec<EsriCoord<T, 2>> = Vec::with_capacity(n);
        let ghost src = if backwards { self@.reverse() } else { self@ };
        let mut i: usize = 0;
        while i < n
            invariant
                n == self.0.len(),
                i <= n,
                src == if backwards { self@.reverse() } else { self@ },
                coords.len() == i,
                forall|k: int| 0 <= k < i ==> (#[trigger] coords@[k])@ == esri_coord(src[k]),
            decreases n - i,
        {
            let c = if backwards { &self.0[n - 1 - i] } else { &self.0[i] };
            coords.push(c.to_esri_coord());
            i += 1;
        }
        let r = EsriLineString(coords);
        assert(r@ =~= esri_path(src));
        r
    }

    /// Converts every vertex, in order.
    pub fn to_esri_line_string(&self) -> (r: EsriLineString<T, 2>)
        ensures
            r@ == esri_path(self@),
    {
        self.to_esri_line_string_directed(false)
    }
}

impl<T: Copy> Polygon<T> {
    /// Lists the outer boundary clockwise, then every hole counter-clockwise,
    /// turning round each ring that runs the other way.
    pub fn to_esri_rings(&self) -> (r: Vec<EsriLineString<T, 2>>)
        ensures
            lines_view(r@) == polygon_rings(*self),
    {
        let mut rings: Vec<EsriLineString<T, 2>> = Vec::new();
        rings.push(self.exterior.to_exterior());
        let n = self.interiors.len();
        let mut i: usize = 0;
        while i < n
            invariant
                n == self.interiors.len(),
                i <= n,
                rings.len() == i + 1,
                rings@[0]@ == exterior_ring(self.exterior),
                forall|k: int| 0 <= k < i ==> (#[trigger] rings@[k + 1])@ == interior_ring(self.interiors@[k]),
            decreases n - i,
        {
            rings.push(self.interiors[i].to_interior());
            i += 1;
        }
        proof {
            let got = lines_view(rings@);
            let want = polygon_rings(*self);
            assert(got.len() == want.len());
            assert forall|k: int| 0 <= k < got.len() implies got[k] == want[k] by {
                if k > 0 {
                    assert(rings@[(k - 1) + 1]@ == interior_ring(self.interiors@[k - 1]));
                }
            }
            assert(got =~= want);
        }
        rings
    }

    /// One Esri polygon with the rings of this polygon, and no flag set.
    pub fn to_esri_polygon(&self) -> (r: EsriPolygon<T, 2>)
        ensures
            r@ == polygon_rings(*self),
            r.rings@.len() == 1 + self.interiors@.len(),
            r.is_bare(),
    {
        let rings = self.to_esri_rings();
        assert(lines_view(rings@).len() == rings@.len());
        EsriPolygon { hasZ: None, hasM: None, rings, spatialReference: None }
    }
}

impl<T: Copy> MultiPolygon<T> {
    /// One Esri polygon with the rings of every polygon, polygon after
    /// polygon, each ring wound as `Polygon::to_esri_polygon` winds it.
    pub fn to_esri_polygon(&self) -> (r: EsriPolygon<T, 2>)
        ensures
            r@ == multi_polygon_rings(self.0@),
            r.rings@.len() == ring_count(self.0@),
            r.is_bare(),
    {
        let mut rings: Vec<EsriLineString<T, 2>> = Vec::new();
        let n = self.0.len();
        let mut i: usize = 0;
        assert(multi_polygon_rings(self.0@.take(0)) =~= Seq::empty());
        while i < n
            invariant
                n == self.0.len(),
                i <= n,
                lines_view(rings@) == multi_polygon_rings(self.0@.take(i as int)),
            decreases n - i,
        {
            let mut more = self.0[i].to_esri_rings();
            proof {
                lemma_multi_polygon_rings_step(self.0@, i as int);
                assert(lines_view(rings@ + more@) =~= lines_view(rings@) + lines_view(more@));
            }
            rings.append(&mut more);
            i += 1;
        }
        proof {
            assert(self.0@.take(n as int) =~= self.0@);
            lemma_multi_polygon_ring_for_ring(self.0@);
            assert(lines_view(rings@).len() == rings@.len());
        }
        EsriPolygon { hasZ: None, hasM: None, rings, spatialReference: None }
    }
}

impl<T: Copy> Rect<T> {
    /// The box as an Esri polygon of one ring: its boundary, clockwise.
    pub fn to_esri_polygon(&self) -> (r: EsriPolygon<T, 2>)
        ensures
            r@ == seq![boundary_ring(self.boundary(), self.winding)],
            r.is_bare(),
    {
        let p = self.to_polygon();
        let r = p.to_esri_polygon();
        assert(r@ =~= seq![exterior_ring(p.exterior)]);
        r
    }
}

impl<T: Copy> Triangle<T> {
    /// The triangle as an Esri polygon of one ring: its boundary, clockwise.
    pub fn to_esri_polygon(&self) -> (r: EsriPolygon<T, 2>)
        ensures
            r@ == seq![boundary_ring(self.boundary(), self.winding)],
            r.is_bare(),
    {
        let p = self.to_polygon();
        let r = p.to_esri_polygon();
        assert(r@ =~= seq![exterior_ring(p.exterior)]);
        r
    }
}

impl<T: Copy> Point<T> {
    /// Copies the position; height, measure and spatial reference stay unset.
    pub fn to_esri_point(&self) -> (r: EsriPoint<T>)
        ensures
            r@ == esri_coord(self.0),
            r.is_bare(),
    {
        EsriPoint { x: self.0.x, y: self.0.y, z: None, m: None, spatialReference: None }
    }
}

impl<T: Copy> MultiPoint<T> {
    /// Converts every point, in order; no flag is set.
    pub fn to_esri_multi_point(&self) -> (r: EsriMultiPoint<T, 2>)
        ensures
            r@ == esri_points(self.0@),
            r.is_bare(),
    {
        let n = self.0.len();
        let mut points: Vec<EsriCoord<T, 2>> = Vec::with_capacity(n);
        let mut i: usize = 0;
        while i < n
            invariant
                n == self.0.len(),
                i <= n,
                points.len() == i,
                forall|k: int| 0 <= k < i ==> (#[trigger] points@[k])@ == esri_coord(self.0@[k].0),
            decreases n - i,
        {
            points.push(self.0[i].0.to_esri_coord());
            i += 1;
        }
        assert(coords_view(points@) =~= esri_points(self.0@));
        EsriMultiPoint { hasZ: None, hasM: None, points, spatialReference: None }
    }
}

impl<T: Copy> Line<T> {
    /// One path of two vertices: the start, then the end.
    pub fn to_esri_polyline(&self) -> (r: EsriPolyline<T, 2>)
        ensures
            r@ == seq![seq![esri_coord(self.start), esri_coord(self.end)]],
            r.is_bare(),
    {
        let mut coords: Vec<EsriCoord<T, 2>> = Vec::with_capacity(2);
        coords.push(self.start.to_esri_coord());
        coords.push(self.end.to_esri_coord());
        let path = EsriLineString(coords);
        assert(path@ =~= seq![esri_coord(self.start), esri_coord(self.end)]);
        let mut paths: Vec<EsriLineString<T, 2>> = Vec::with_capacity(1);
        paths.push(path);
        assert(lines_view(paths@) =~= seq![path@]);
        EsriPolyline { hasZ: None, hasM: None, paths, spatialReference: None }
    }
}

impl<T: Copy> LineString<T> {
    /// One path with every vertex, in order.
    pub fn to_esri_polyline(&self) -> (r: EsriPolyline<T, 2>)
        ensures
            r@ == seq![esri_path(self@)],
            r.is_bare(),
    {
        let path = self.to_esri_line_string();
        let mut paths: Vec<EsriLineString<T, 2>> = Vec::with_capacity(1);
        paths.push(path);
        assert(lines_view(paths@) =~= seq![path@]);
        EsriPolyline { hasZ: None, hasM: None, paths, spatialReference: None }
    }
}

impl<T: Copy> MultiLineString<T> {
    /// One path for every vertex chain, in order.
    pub fn to_esri_polyline(&self) -> (r: EsriPolyline<T, 2>)
        ensures
            r@ == esri_paths(self.0@),
            r.is_bare(),
    {
        let n = self.0.len();
        let mut paths: Vec<EsriLineString<T, 2>> = Vec::with_capacity(n);
        let mut i: usize = 0;
        while i < n
            invariant
                n == self.0.len(),
                i <= n,
                paths.len() == i,
                forall|k: int| 0 <= k < i ==> (#[trigger] paths@[k])@ == esri_path(self.0@[k]@),
            decreases n - i,
        {
            paths.push(self.0[i].to_esri_line_string());
            i += 1;
        }
        assert(lines_view(paths@) =~= esri_paths(self.0@));
        EsriPolyline { hasZ: None, hasM: None, paths, spatialReference: None }
    }
}

impl<T: Copy> Geometry<T> {
    /// Converts by kind: a point to a point, a multi-point to a multi-point,
    /// every line shape to a polyline, every area shape to a polygon. A
    /// collection is refused with `Err(None)`, whatever it holds.
    pub fn to_esri_geometry(&self) -> (r: Result<EsriGeometry<T, 2>, Option<()>>)
        ensures
            match esri_geometry(*self) {
                Some(v) => r matches Ok(e) && e@ == v && e.is_bare(),
                None => r == Err::<EsriGeometry<T, 2>, Option<()>>(None),
            },
            r is Err <==> *self is GeometryCollection,
    {
        match self {
            Geometry::Point(g) => Ok(EsriGeometry::Point(g.to_esri_point())),
            Geometry::MultiPoint(g) => Ok(EsriGeometry::MultiPoint(g.to_esri_multi_point())),
            Geometry::Line(g) => Ok(EsriGeometry::Polyline(g.to_esri_polyline())),
            Geometry::LineString(g) => Ok(EsriGeometry::Polyline(g.to_esri_polyline())),
            Geometry::MultiLineString(g) => Ok(EsriGeometry::Polyline(g.to_esri_polyline())),
            Geometry::Polygon(g) => Ok(EsriGeometry::Polygon(g.to_esri_polygon())),
            Geometry::MultiPolygon(g) => Ok(EsriGeometry::Polygon(g.to_esri_polygon())),
            Geometry::Rect(g) => Ok(EsriGeometry::Polygon(g.to_esri_polygon())),
            Geometry::Triangle(g) => Ok(EsriGeometry::Polygon(g.to_esri_polygon())),
            Geometry::GeometryCollection(_) => Err(None),
        }
    }
}

impl<T: Copy> Ring<T> {
    /// The ring as an outer boundary: clockwise.
    pub fn to_exterior(&self) -> (r: EsriLineString<T, 2>)
        ensures
            r@ == exterior_ring(*self),
    {
        let clockwise = match self.winding {
            Some(WindingOrder::Clockwise) => true,
            _ => false,
        };
        self.line.to_esri_line_string_directed(!clockwise)
    }

    /// The ring as a hole: counter-clockwise.
    pub fn to_interior(&self) -> (r: EsriLineString<T, 2>)
        ensures
            r@ == interior_ring(*self),
    {
        let clockwise = match self.winding {
            Some(WindingOrder::Clockwise) => true,
            _ => false,
        };
        self.line.to_esri_line_string_directed(clockwise)
    }
}

} // verus!
