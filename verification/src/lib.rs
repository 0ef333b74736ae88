//! Conversion of planar geometry into the geometry objects of Esri's REST
//! services, with the ring directions that those services demand, and the
//! paging rules of the Places service.
//!
//! The library is generic over the number type `T` of a coordinate: it copies
//! numbers and never computes with them.

pub mod geometry;
pub mod planar;
pub mod from_planar;
pub mod guarantees;
pub mod places;
