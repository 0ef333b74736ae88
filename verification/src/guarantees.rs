//! What the conversions guarantee, proved from their definitions.
//!
//! The conversion functions promise the values that `from_planar` defines.
//! The lemmas here draw the consequences that a user relies on: rings are
//! neither lost nor invented, a closed ring stays closed, and the direction
//! in which an outer boundary arrives does not show in the result.

use vstd::prelude::*;
use crate::from_planar::{
    boundary_ring, esri_coord, esri_geometry, esri_path, esri_path_directed, esri_paths,
    exterior_ring, interior_ring, multi_polygon_rings, polygon_rings,
};
use crate::planar::{
    is_closed, ring_coords, ring_count, rings_of, Coord, Geometry, LineString, Polygon, Ring,
    WindingOrder,
};

verus! {

/// An emitted ring holds the vertices of its source ring, in their order or
/// in the opposite order.
pub open spec fn ring_is_kept<T>(src: Ring<T>, out: Seq<Seq<T>>) -> bool {
    out == esri_path(src.line@) || out == esri_path(src.line@.reverse())
}

/// A polygon whose outer boundary is turned round converts to the same rings
/// as the polygon itself, provided the boundary has a direction: the copy is
/// found clockwise exactly when the polygon's own boundary is not. A boundary that reads
/// the same in both directions needs no such proviso.
pub proof fn lemma_exterior_direction_is_normalized<T>(p: Polygon<T>, q: Polygon<T>)
    requires
        q.exterior.line@ == p.exterior.line@.reverse(),
        q.interiors@ == p.interiors@,
        p.exterior.is_clockwise() != q.exterior.is_clockwise() || p.exterior.line@
            == p.exterior.line@.reverse(),
    ensures
        polygon_rings(p) == polygon_rings(q),
{
    let c = p.exterior.line@;
    assert(c.reverse().reverse() =~= c);
    assert(exterior_ring(p.exterior) == exterior_ring(q.exterior));
}

/// Without that proviso the two results differ: a boundary without a
/// direction leaves as it came, whichever way round that was.
pub proof fn lemma_exterior_direction_is_needed<T>(p: Polygon<T>, q: Polygon<T>)
    requires
        q.exterior.line@ == p.exterior.line@.reverse(),
        p.exterior.is_clockwise() == q.exterior.is_clockwise(),
        p.exterior.line@ != p.exterior.line@.reverse(),
    ensures
        polygon_rings(p) != polygon_rings(q),
{
    let c = p.exterior.line@;
    let d = c.reverse();
    assert(d.reverse() =~= c);
    if polygon_rings(p) == polygon_rings(q) {
        assert(polygon_rings(p)[0] == exterior_ring(p.exterior));
        assert(polygon_rings(q)[0] == exterior_ring(q.exterior));
        lemma_esri_path_is_injective(c, d);
    }
}

/// Two vertex chains with the same positions are the same chain.
pub proof fn lemma_esri_path_is_injective<T>(a: Seq<Coord<T>>, b: Seq<Coord<T>>)
    requires
        esri_path(a) == esri_path(b),
    ensures
        a == b,
{
    assert(a.len() == esri_path(a).len());
    assert(b.len() == esri_path(b).len());
    assert forall|i: int| 0 <= i < a.len() implies a[i] == b[i] by {
        assert(esri_path(a)[i] == esri_coord(a[i]));
        assert(esri_path(b)[i] == esri_coord(b[i]));
        assert(esri_coord(a[i])[0] == a[i].x);
        assert(esri_coord(a[i])[1] == a[i].y);
        assert(esri_coord(b[i])[0] == b[i].x);
        assert(esri_coord(b[i])[1] == b[i].y);
    }
    assert(a =~= b);
}

/// A polygon converts to one ring for its outer boundary and one for each of
/// its holes, and ring `k` of the result holds the vertices of ring `k` of
/// the polygon.
pub proof fn lemma_polygon_ring_for_ring<T>(p: Polygon<T>)
    ensures
        polygon_rings(p).len() == 1 + p.interiors@.len(),
        polygon_rings(p).len() == p.rings().len(),
        forall|k: int|
            0 <= k < p.rings().len() ==> ring_is_kept(p.rings()[k], #[trigger] polygon_rings(p)[k]),
{
    assert forall|k: int| 0 <= k < p.rings().len() implies ring_is_kept(
        p.rings()[k],
        #[trigger] polygon_rings(p)[k],
    ) by {
        if k == 0 {
            assert(polygon_rings(p)[0] == exterior_ring(p.exterior));
        } else {
            assert(polygon_rings(p)[k] == interior_ring(p.interiors@[k - 1]));
            assert(p.rings()[k] == p.interiors@[k - 1]);
        }
    }
}

/// A run of polygons converts to as many rings as the polygons have between
/// them, and ring `k` of the result holds the vertices of ring `k` of the
/// run, counted polygon after polygon.
pub proof fn lemma_multi_polygon_ring_for_ring<T>(ps: Seq<Polygon<T>>)
    ensures
        multi_polygon_rings(ps).len() == ring_count(ps),
        multi_polygon_rings(ps).len() == rings_of(ps).len(),
        forall|k: int|
            0 <= k < rings_of(ps).len() ==> ring_is_kept(
                rings_of(ps)[k],
                #[trigger] multi_polygon_rings(ps)[k],
            ),
    decreases ps.len(),
{
    let f = |p: Polygon<T>| polygon_rings(p);
    let g = |p: Polygon<T>| p.rings();
    if ps.len() == 0 {
        assert(multi_polygon_rings(ps) =~= Seq::empty());
        assert(rings_of(ps) =~= Seq::empty());
    } else {
        let init = ps.drop_last();
        let last = ps.last();
        lemma_multi_polygon_ring_for_ring(init);
        lemma_polygon_ring_for_ring(last);
        assert(ps.map_values(f) =~= init.map_values(f).push(f(last)));
        assert(ps.map_values(g) =~= init.map_values(g).push(g(last)));
        init.map_values(f).lemma_flatten_push(f(last));
        init.map_values(g).lemma_flatten_push(g(last));
        assert(multi_polygon_rings(ps) == multi_polygon_rings(init) + polygon_rings(last));
        assert(rings_of(ps) == rings_of(init) + last.rings());
        let m = rings_of(init).len() as int;
        assert forall|k: int| 0 <= k < rings_of(ps).len() implies ring_is_kept(
            rings_of(ps)[k],
            #[trigger] multi_polygon_rings(ps)[k],
        ) by {
            if k < m {
                assert(multi_polygon_rings(ps)[k] == multi_polygon_rings(init)[k]);
                assert(rings_of(ps)[k] == rings_of(init)[k]);
            } else {
                assert(multi_polygon_rings(ps)[k] == polygon_rings(last)[k - m]);
                assert(rings_of(ps)[k] == last.rings()[k - m]);
            }
        }
    }
}

/// In the result for a run of polygons the rings of polygon `i` stand
/// together, in their order, behind the rings of all polygons before it.
pub proof fn lemma_multi_polygon_rings_in_order<T>(ps: Seq<Polygon<T>>, i: int)
    requires
        0 <= i < ps.len(),
    ensures
        ring_count(ps.take(i)) + polygon_rings(ps[i]).len() <= multi_polygon_rings(ps).len(),
        multi_polygon_rings(ps).subrange(
            ring_count(ps.take(i)) as int,
            (ring_count(ps.take(i)) + polygon_rings(ps[i]).len()) as int,
        ) == polygon_rings(ps[i]),
    decreases ps.len(),
{
    let f = |p: Polygon<T>| polygon_rings(p);
    let init = ps.drop_last();
    let last = ps.last();
    assert(ps.map_values(f) =~= init.map_values(f).push(f(last)));
    init.map_values(f).lemma_flatten_push(f(last));
    assert(multi_polygon_rings(ps) == multi_polygon_rings(init) + polygon_rings(last));
    lemma_multi_polygon_ring_for_ring(init);
    if i == ps.len() - 1 {
        assert(ps.take(i) =~= init);
        assert(multi_polygon_rings(ps).subrange(
            ring_count(init) as int,
            (ring_count(init) + polygon_rings(last).len()) as int,
        ) =~= polygon_rings(last));
    } else {
        lemma_multi_polygon_rings_in_order(init, i);
        assert(init.take(i) =~= ps.take(i));
        assert(init[i] == ps[i]);
        let lo = ring_count(ps.take(i)) as int;
        let hi = lo + polygon_rings(ps[i]).len();
        assert(multi_polygon_rings(ps).subrange(lo, hi) =~= multi_polygon_rings(init).subrange(
            lo,
            hi,
        ));
    }
}

/// A vertex chain that ends where it starts is emitted as a path that ends
/// where it starts, at that same position, in whichever direction it is
/// walked; and no vertex is lost or added on the way.
pub proof fn lemma_closure_is_kept<T>(s: Seq<Coord<T>>, backwards: bool)
    requires
        is_closed(s),
    ensures
        esri_path_directed(s, backwards).len() == s.len(),
        is_closed(esri_path_directed(s, backwards)),
        esri_path_directed(s, backwards).first() == esri_coord(s.first()),
        esri_path_directed(s, backwards).last() == esri_coord(s.last()),
{
}

/// Every closed ring of a polygon is a closed ring of the result, with the
/// end point it had.
pub proof fn lemma_polygon_keeps_closure<T>(p: Polygon<T>, k: int)
    requires
        0 <= k < p.rings().len(),
        is_closed(p.rings()[k].line@),
    ensures
        k < polygon_rings(p).len(),
        is_closed(polygon_rings(p)[k]),
        polygon_rings(p)[k].first() == esri_coord(p.rings()[k].line@.first()),
{
    lemma_polygon_ring_for_ring(p);
    lemma_closure_is_kept(p.rings()[k].line@, false);
    lemma_closure_is_kept(p.rings()[k].line@, true);
}

/// Every closed ring of a run of polygons is a closed ring of the result,
/// with the end point it had.
pub proof fn lemma_multi_polygon_keeps_closure<T>(ps: Seq<Polygon<T>>, k: int)
    requires
        0 <= k < rings_of(ps).len(),
        is_closed(rings_of(ps)[k].line@),
    ensures
        k < multi_polygon_rings(ps).len(),
        is_closed(multi_polygon_rings(ps)[k]),
        multi_polygon_rings(ps)[k].first() == esri_coord(rings_of(ps)[k].line@.first()),
{
    lemma_multi_polygon_ring_for_ring(ps);
    lemma_closure_is_kept(rings_of(ps)[k].line@, false);
    lemma_closure_is_kept(rings_of(ps)[k].line@, true);
}

/// Converting the vertices of several chains one chain at a time gives the
/// same positions as converting all their vertices in one go.
proof fn lemma_esri_path_of_flatten<T>(xs: Seq<Seq<Coord<T>>>)
    ensures
        esri_path(xs.flatten()) == xs.map_values(|s: Seq<Coord<T>>| esri_path(s)).flatten(),
    decreases xs.len(),
{
    let f = |s: Seq<Coord<T>>| esri_path(s);
    if xs.len() == 0 {
        assert(xs.flatten() =~= Seq::empty());
        assert(xs.map_values(f).flatten() =~= Seq::empty());
        assert(esri_path(xs.flatten()) =~= Seq::empty());
    } else {
        let init = xs.drop_last();
        let last = xs.last();
        lemma_esri_path_of_flatten(init);
        assert(xs =~= init.push(last));
        init.lemma_flatten_push(last);
        assert(xs.map_values(f) =~= init.map_values(f).push(f(last)));
        init.map_values(f).lemma_flatten_push(f(last));
        assert(esri_path(init.flatten() + last) =~= esri_path(init.flatten()) + esri_path(last));
    }
}

/// Two lists of chains that agree chain by chain, up to the order inside a
/// chain, agree as a whole up to order.
proof fn lemma_flatten_up_to_order<A>(a: Seq<Seq<A>>, b: Seq<Seq<A>>)
    requires
        a.len() == b.len(),
        forall|k: int| 0 <= k < a.len() ==> a[k].to_multiset() == b[k].to_multiset(),
    ensures
        a.flatten().to_multiset() == b.flatten().to_multiset(),
    decreases a.len(),
{
    if a.len() == 0 {
        assert(a.flatten() =~= b.flatten());
    } else {
        lemma_flatten_up_to_order(a.drop_last(), b.drop_last());
        assert(a =~= a.drop_last().push(a.last()));
        assert(b =~= b.drop_last().push(b.last()));
        a.drop_last().lemma_flatten_push(a.last());
        b.drop_last().lemma_flatten_push(b.last());
        vstd::seq_lib::lemma_multiset_commutative(a.drop_last().flatten(), a.last());
        vstd::seq_lib::lemma_multiset_commutative(b.drop_last().flatten(), b.last());
    }
}

/// A chain walked in either direction yields the positions of its vertices,
/// each as often as it occurs.
proof fn lemma_directed_up_to_order<T>(s: Seq<Coord<T>>, backwards: bool)
    ensures
        esri_path_directed(s, backwards).to_multiset() == esri_path(s).to_multiset(),
{
    if backwards {
        assert(esri_path(s.reverse()) =~= esri_path(s).reverse());
        esri_path(s).lemma_reverse_to_multiset();
    }
}

/// The emitted rings hold the positions of the source rings' vertices, each
/// as often as it occurs.
proof fn lemma_rings_up_to_order<T>(src: Seq<Ring<T>>, out: Seq<Seq<Seq<T>>>)
    requires
        out.len() == src.len(),
        forall|k: int| 0 <= k < src.len() ==> ring_is_kept(src[k], #[trigger] out[k]),
    ensures
        out.flatten().to_multiset() == esri_path(ring_coords(src)).to_multiset(),
{
    let lines = src.map_values(|r: Ring<T>| r.line@);
    let paths = lines.map_values(|s: Seq<Coord<T>>| esri_path(s));
    lemma_esri_path_of_flatten(lines);
    assert forall|k: int| 0 <= k < out.len() implies out[k].to_multiset()
        == paths[k].to_multiset() by {
        assert(ring_is_kept(src[k], out[k]));
        lemma_directed_up_to_order(src[k].line@, true);
    }
    lemma_flatten_up_to_order(out, paths);
}

/// Whatever a geometry converts to holds exactly the positions of the
/// geometry's own vertices, each as often as the geometry lists it: none is
/// dropped, none is added, and no number is altered or moved within its
/// coordinate. Only the order of the vertices of a ring may differ.
pub proof fn lemma_coordinates_are_copied<T>(g: Geometry<T>)
    requires
        esri_geometry(g) is Some,
    ensures
        esri_geometry(g).unwrap().positions().to_multiset() == esri_path(
            g.coords(),
        ).to_multiset(),
        esri_geometry(g).unwrap().positions().len() == g.coords().len(),
{
    let out = esri_geometry(g).unwrap().positions();
    match g {
        Geometry::Point(p) => {
            assert(out =~= esri_path(g.coords()));
        },
        Geometry::Line(l) => {
            seq![seq![esri_coord(l.start), esri_coord(l.end)]].lemma_flatten_singleton();
            assert(out =~= esri_path(g.coords()));
        },
        Geometry::LineString(l) => {
            seq![esri_path(l@)].lemma_flatten_singleton();
        },
        Geometry::MultiPoint(m) => {
            assert(out =~= esri_path(g.coords()));
        },
        Geometry::MultiLineString(m) => {
            let lines = m.0@.map_values(|l: LineString<T>| l@);
            lemma_esri_path_of_flatten(lines);
            assert(esri_paths(m.0@) =~= lines.map_values(|s: Seq<Coord<T>>| esri_path(s)));
        },
        Geometry::Polygon(p) => {
            lemma_polygon_ring_for_ring(p);
            lemma_rings_up_to_order(p.rings(), polygon_rings(p));
        },
        Geometry::MultiPolygon(m) => {
            lemma_multi_polygon_ring_for_ring(m.0@);
            lemma_rings_up_to_order(rings_of(m.0@), multi_polygon_rings(m.0@));
        },
        Geometry::Rect(r) => {
            seq![boundary_ring(r.boundary(), r.winding)].lemma_flatten_singleton();
            lemma_directed_up_to_order(r.boundary(), r.winding != Some(WindingOrder::Clockwise));
        },
        Geometry::Triangle(t) => {
            seq![boundary_ring(t.boundary(), t.winding)].lemma_flatten_singleton();
            lemma_directed_up_to_order(t.boundary(), t.winding != Some(WindingOrder::Clockwise));
        },
        Geometry::GeometryCollection(_) => {},
    }
    out.to_multiset_ensures();
    esri_path(g.coords()).to_multiset_ensures();
}

/// Every position in a result is the position of a vertex of the geometry
/// that was converted, number for number.
pub proof fn lemma_every_position_has_a_source<T>(g: Geometry<T>, i: int)
    requires
        esri_geometry(g) is Some,
        0 <= i < esri_geometry(g).unwrap().positions().len(),
    ensures
        exists|j: int|
            0 <= j < g.coords().len() && esri_geometry(g).unwrap().positions()[i] == esri_coord(
                #[trigger] g.coords()[j],
            ),
{
    let out = esri_geometry(g).unwrap().positions();
    let src = esri_path(g.coords());
    lemma_coordinates_are_copied(g);
    out.to_multiset_ensures();
    src.to_multiset_ensures();
    assert(out.contains(out[i]));
    assert(out.to_multiset().count(out[i]) > 0);
    assert(src.to_multiset().count(out[i]) > 0);
    assert(src.contains(out[i]));
    let j = choose|j: int| 0 <= j < src.len() && src[j] == out[i];
    assert(src[j] == esri_coord(g.coords()[j]));
}

} // verus!
