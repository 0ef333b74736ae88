//! The geometry objects that Esri's REST services read and write.
//!
//! Every type here is a plain container. Its view is the bare point data: a
//! coordinate is a sequence of numbers, a path or ring a sequence of
//! coordinates, and so on. The optional flags are ordinary public fields.

use vstd::prelude::*;

verus! {

/// The coordinate system that a geometry's numbers are measured in.
#[derive(Clone, Debug, PartialEq)]
pub struct SpatialReference {
    pub wkid: Option<u32>,
    pub latest_wkid: Option<u32>,
    pub vcs_wkid: Option<u32>,
    pub latest_vcs_wkid: Option<u32>,
    pub wkt: Option<String>,
}

/// One position: `N` numbers, `x` and `y` first.
#[derive(Clone, Copy, Debug, PartialEq)]
pub struct EsriCoord<T, const N: usize>(pub [T; N]);

impl<T, const N: usize> View for EsriCoord<T, N> {
    type V = Seq<T>;

    open spec fn view(&self) -> Seq<T> {
        self.0@
    }
}

/// An ordered run of positions: a path of a polyline or a ring of a polygon.
#[derive(Clone, Debug, PartialEq)]
pub struct EsriLineString<T, const N: usize>(pub Vec<EsriCoord<T, N>>);

/// The positions of a run of coordinates, each as its sequence of numbers.
pub open spec fn coords_view<T, const N: usize>(s: Seq<EsriCoord<T, N>>) -> Seq<Seq<T>> {
    s.map_values(|c: EsriCoord<T, N>| c@)
}

/// The positions of a list of paths or rings.
pub open spec fn lines_view<T, const N: usize>(s: Seq<EsriLineString<T, N>>) -> Seq<Seq<Seq<T>>> {
    s.map_values(|l: EsriLineString<T, N>| l@)
}

impl<T, const N: usize> View for EsriLineString<T, N> {
    type V = Seq<Seq<T>>;

    open spec fn view(&self) -> Seq<Seq<T>> {
        coords_view(self.0@)
    }
}

/// A single position with optional height, measure and spatial reference.
#[allow(non_snake_case)]
#[derive(Clone, Debug, PartialEq)]
pub struct EsriPoint<T> {
    pub x: T,
    pub y: T,
    pub z: Option<T>,
    pub m: Option<T>,
    pub spatialReference: Option<SpatialReference>,
}

impl<T> View for EsriPoint<T> {
    type V = Seq<T>;

    /// The planar position, `x` then `y`.
    open spec fn view(&self) -> Seq<T> {
        seq![self.x, self.y]
    }
}

impl<T> EsriPoint<T> {
    /// No height, no measure and no spatial reference are present.
    pub open spec fn is_bare(&self) -> bool {
        self.z is None && self.m is None && self.spatialReference is None
    }
}

/// A bag of positions.
#[allow(non_snake_case)]
#[derive(Clone, Debug, PartialEq)]
pub struct EsriMultiPoint<T, const N: usize> {
    pub hasZ: Option<bool>,
    pub hasM: Option<bool>,
    pub points: Vec<EsriCoord<T, N>>,
    pub spatialReference: Option<SpatialReference>,
}

impl<T, const N: usize> View for EsriMultiPoint<T, N> {
    type V = Seq<Seq<T>>;

    open spec fn view(&self) -> Seq<Seq<T>> {
        coords_view(self.points@)
    }
}

impl<T, const N: usize> EsriMultiPoint<T, N> {
    /// Neither flag nor a spatial reference is present.
    pub open spec fn is_bare(&self) -> bool {
        self.hasZ is None && self.hasM is None && self.spatialReference is None
    }
}

/// A list of paths, each open or closed.
#[allow(non_snake_case)]
#[derive(Clone, Debug, PartialEq)]
pub struct EsriPolyline<T, const N: usize> {
    pub hasZ: Option<bool>,
    pub hasM: Option<bool>,
    pub paths: Vec<EsriLineString<T, N>>,
    pub spatialReference: Option<SpatialReference>,
}

impl<T, const N: usize> View for EsriPolyline<T, N> {
    type V = Seq<Seq<Seq<T>>>;

    open spec fn view(&self) -> Seq<Seq<Seq<T>>> {
        lines_view(self.paths@)
    }
}

impl<T, const N: usize> EsriPolyline<T, N> {
    /// Neither flag nor a spatial reference is present.
    pub open spec fn is_bare(&self) -> bool {
        self.hasZ is None && self.hasM is None && self.spatialReference is None
    }
}

/// A flat list of rings. An outer boundary runs clockwise, a hole
/// counter-clockwise; which hole belongs to which boundary is not recorded.
#[allow(non_snake_case)]
#[derive(Clone, Debug, PartialEq)]
pub struct EsriPolygon<T, const N: usize> {
    pub hasZ: Option<bool>,
    pub hasM: Option<bool>,
    pub rings: Vec<EsriLineString<T, N>>,
    pub spatialReference: Option<SpatialReference>,
}

impl<T, const N: usize> View for EsriPolygon<T, N> {
    type V = Seq<Seq<Seq<T>>>;

    open spec fn view(&self) -> Seq<Seq<Seq<T>>> {
        lines_view(self.rings@)
    }
}

impl<T, const N: usize> EsriPolygon<T, N> {
    /// Neither flag nor a spatial reference is present.
    pub open spec fn is_bare(&self) -> bool {
        self.hasZ is None && self.hasM is None && self.spatialReference is None
    }
}

/// Any one of the four geometry objects, told apart by its variant.
#[derive(Clone, Debug, PartialEq)]
pub enum EsriGeometry<T, const N: usize> {
    Point(EsriPoint<T>),
    MultiPoint(EsriMultiPoint<T, N>),
    Polygon(EsriPolygon<T, N>),
    Polyline(EsriPolyline<T, N>),
}

/// The point data of a geometry object together with its kind.
pub enum EsriGeometryView<T> {
    Point(Seq<T>),
    MultiPoint(Seq<Seq<T>>),
    Polygon(Seq<Seq<Seq<T>>>),
    Polyline(Seq<Seq<Seq<T>>>),
}

impl<T> EsriGeometryView<T> {
    /// Every position that the geometry object holds, in the order in which
    /// it lists them.
    pub open spec fn positions(self) -> Seq<Seq<T>> {
        match self {
            EsriGeometryView::Point(c) => seq![c],
            EsriGeometryView::MultiPoint(cs) => cs,
            EsriGeometryView::Polygon(rings) => rings.flatten(),
            EsriGeometryView::Polyline(paths) => paths.flatten(),
        }
    }
}

impl<T, const N: usize> View for EsriGeometry<T, N> {
    type V = EsriGeometryView<T>;

    open spec fn view(&self) -> EsriGeometryView<T> {
        match *self {
            EsriGeometry::Point(g) => EsriGeometryView::Point(g@),
            EsriGeometry::MultiPoint(g) => EsriGeometryView::MultiPoint(g@),
            EsriGeometry::Polygon(g) => EsriGeometryView::Polygon(g@),
            EsriGeometry::Polyline(g) => EsriGeometryView::Polyline(g@),
        }
    }
}

impl<T, const N: usize> EsriGeometry<T, N> {
    /// No optional field of the geometry object inside is present.
    pub open spec fn is_bare(&self) -> bool {
        match *self {
            EsriGeometry::Point(g) => g.is_bare(),
            EsriGeometry::MultiPoint(g) => g.is_bare(),
            EsriGeometry::Polygon(g) => g.is_bare(),
            EsriGeometry::Polyline(g) => g.is_bare(),
        }
    }
}

} // verus!
