//! Collision solids.

use vstd::prelude::*;

use crate::bam::{lemma_repeat_err, lift, outcome, sp_repeat, AssetView, BinaryAsset, Error, PR};
use crate::datagram::{dg_float, dg_floats, dg_u16, dg_u8, Datagram, DgView, FloatBits};

verus! {

/// The solid is tangible.
pub const TANGIBLE: u8 = 1;
/// The solid has an effective normal.
pub const EFFECTIVE_NORMAL: u8 = 2;
/// The visible geometry needs to be rebuilt.
pub const VISIBLE_GEOMETRY_STALE: u8 = 4;
/// The effective normal is ignored.
pub const IGNORE_EFFECTIVE_NORMAL: u8 = 8;
/// The internal bounds need to be recomputed.
pub const INTERNAL_BOUNDS_STALE: u8 = 16;
/// Every flag with a meaning.
pub const SOLID_FLAG_BITS: u8 = 31;

/// The zero vector, as three single-precision floats.
pub open spec fn zero_vec3() -> Seq<FloatBits> {
    seq![FloatBits::Single(0), FloatBits::Single(0), FloatBits::Single(0)]
}

/// The abstract value of a CollisionSolid.
pub struct CollisionSolidView {
    pub flags: u8,
    pub effective_normal: Seq<FloatBits>,
}

/// What every collision solid has.
pub struct CollisionSolid {
    pub flags: u8,
    /// Three floats.
    pub effective_normal: Vec<FloatBits>,
}

impl View for CollisionSolid {
    type V = CollisionSolidView;

    open spec fn view(&self) -> CollisionSolidView {
        CollisionSolidView { flags: self.flags, effective_normal: self.effective_normal@ }
    }
}

/// Reads a CollisionSolid: the flags (those without a meaning dropped), then the effective
/// normal where the flags announce one (else the zero vector). The solid's visible geometry and
/// internal bounds are then marked stale.
pub open spec fn sp_collision_solid(a: AssetView, d: DgView) -> PR<CollisionSolidView> {
    match lift(dg_u8(d), a) {
        Err(e) => Err(e),
        Ok((b, a, d)) => {
            let flags = b & SOLID_FLAG_BITS;
            let normal: PR<Seq<FloatBits>> = if flags & EFFECTIVE_NORMAL != 0 {
                lift(dg_floats(d, 3), a)
            } else {
                Ok((zero_vec3(), a, d))
            };
            match normal {
                Err(e) => Err(e),
                Ok((effective_normal, a, d)) => Ok(
                    (
                        CollisionSolidView {
                            flags: flags | VISIBLE_GEOMETRY_STALE | INTERNAL_BOUNDS_STALE,
                            effective_normal,
                        },
                        a,
                        d,
                    ),
                ),
            }
        },
    }
}

fn zero_vector() -> (v: Vec<FloatBits>)
    ensures
        v@ == zero_vec3(),
{
    let v = vec![FloatBits::Single(0), FloatBits::Single(0), FloatBits::Single(0)];
    assert(v@ =~= zero_vec3());
    v
}

impl CollisionSolid {
    pub fn create(loader: &mut BinaryAsset, data: &mut Datagram) -> (r: Result<Self, Error>)
        requires
            old(data).wf(),
        ensures
            final(loader).header == old(loader).header,
            final(data).wf(),
            outcome(r, sp_collision_solid(old(loader)@, old(data)@), final(loader)@, final(data)@),
    {
        let flags = match data.read_u8() {
            Ok(b) => b & SOLID_FLAG_BITS,
            Err(e) => return Err(Error::DataError(e)),
        };
        let effective_normal = if flags & EFFECTIVE_NORMAL != 0 {
            match data.read_floats(3) {
                Ok(v) => v,
                Err(e) => return Err(Error::DataError(e)),
            }
        } else {
            zero_vector()
        };
        let flags = flags | VISIBLE_GEOMETRY_STALE | INTERNAL_BOUNDS_STALE;
        Ok(CollisionSolid { flags, effective_normal })
    }
}

/// The abstract value of a CollisionSphere.
pub struct CollisionSphereView {
    pub inner: CollisionSolidView,
    pub center: Seq<FloatBits>,
    pub radius: FloatBits,
}

/// A collision sphere.
pub struct CollisionSphere {
    pub inner: CollisionSolid,
    /// Three floats.
    pub center: Vec<FloatBits>,
    pub radius: FloatBits,
}

impl View for CollisionSphere {
    type V = CollisionSphereView;

    open spec fn view(&self) -> CollisionSphereView {
        CollisionSphereView { inner: self.inner@, center: self.center@, radius: self.radius }
    }
}

/// Reads a CollisionSphere: a CollisionSolid, the center (three floats) and the radius.
pub open spec fn sp_collision_sphere(a: AssetView, d: DgView) -> PR<CollisionSphereView> {
    match sp_collision_solid(a, d) {
        Err(e) => Err(e),
        Ok((inner, a, d)) => match lift(dg_floats(d, 3), a) {
            Err(e) => Err(e),
            Ok((center, a, d)) => match lift(dg_float(d), a) {
                Err(e) => Err(e),
                Ok((radius, a, d)) => Ok((CollisionSphereView { inner, center, radius }, a, d)),
            },
        },
    }
}

impl CollisionSphere {
    pub fn create(loader: &mut BinaryAsset, data: &mut Datagram) -> (r: Result<Self, Error>)
        requires
            old(data).wf(),
        ensures
            final(loader).header == old(loader).header,
            final(data).wf(),
            outcome(r, sp_collision_sphere(old(loader)@, old(data)@), final(loader)@, final(data)@),
    {
        let inner = match CollisionSolid::create(loader, data) {
            Ok(s) => s,
            Err(e) => return Err(e),
        };
        let center = match data.read_floats(3) {
            Ok(v) => v,
            Err(e) => return Err(Error::DataError(e)),
        };
        let radius = match data.read_float() {
            Ok(v) => v,
            Err(e) => return Err(Error::DataError(e)),
        };
        Ok(CollisionSphere { inner, center, radius })
    }
}

/// The abstract value of a CollisionPlane.
pub struct CollisionPlaneView {
    pub inner: CollisionSolidView,
    pub plane: Seq<FloatBits>,
}

/// A collision plane.
pub struct CollisionPlane {
    pub inner: CollisionSolid,
    /// Four floats.
    pub plane: Vec<FloatBits>,
}

impl View for CollisionPlane {
    type V = CollisionPlaneView;

    open spec fn view(&self) -> CollisionPlaneView {
        CollisionPlaneView { inner: self.inner@, plane: self.plane@ }
    }
}

/// Reads a CollisionPlane: a CollisionSolid and the plane (four floats).
pub open spec fn sp_collision_plane(a: AssetView, d: DgView) -> PR<CollisionPlaneView> {
    match sp_collision_solid(a, d) {
        Err(e) => Err(e),
        Ok((inner, a, d)) => match lift(dg_floats(d, 4), a) {
            Err(e) => Err(e),
            Ok((plane, a, d)) => Ok((CollisionPlaneView { inner, plane }, a, d)),
        },
    }
}

impl CollisionPlane {
    pub fn create(loader: &mut BinaryAsset, data: &mut Datagram) -> (r: Result<Self, Error>)
        requires
            old(data).wf(),
        ensures
            final(loader).header == old(loader).header,
            final(data).wf(),
            outcome(r, sp_collision_plane(old(loader)@, old(data)@), final(loader)@, final(data)@),
    {
        let inner = match CollisionSolid::create(loader, data) {
            Ok(s) => s,
            Err(e) => return Err(e),
        };
        let plane = match data.read_floats(4) {
            Ok(v) => v,
            Err(e) => return Err(Error::DataError(e)),
        };
        Ok(CollisionPlane { inner, plane })
    }
}

/// Reads one point of a polygon: the point and a vector, two floats each.
pub open spec fn point_item() -> spec_fn(AssetView, DgView) -> PR<Seq<FloatBits>> {
    |a: AssetView, d: DgView| lift(dg_floats(d, 4), a)
}

/// The abstract value of a CollisionPolygon.
pub struct CollisionPolygonView {
    pub inner: CollisionPlaneView,
    pub points: Seq<Seq<FloatBits>>,
    pub to_2d_matrix: Seq<FloatBits>,
}

/// A collision polygon.
pub struct CollisionPolygon {
    pub inner: CollisionPlane,
    /// Each point and its vector, four floats.
    pub points: Vec<Vec<FloatBits>>,
    /// Sixteen floats.
    pub to_2d_matrix: Vec<FloatBits>,
}

impl View for CollisionPolygon {
    type V = CollisionPolygonView;

    open spec fn view(&self) -> CollisionPolygonView {
        CollisionPolygonView {
            inner: self.inner@,
            points: self.points.deep_view(),
            to_2d_matrix: self.to_2d_matrix@,
        }
    }
}

/// Reads a CollisionPolygon: a CollisionPlane, a 16-bit count of points (see `point_item`) and
/// the matrix into the polygon's plane (sixteen floats). Files before BAM 6.13 wind their
/// points the other way and are not supported.
pub open spec fn sp_collision_polygon(a: AssetView, d: DgView) -> PR<CollisionPolygonView> {
    match sp_collision_plane(a, d) {
        Err(e) => Err(e),
        Ok((inner, a, d)) => match lift(dg_u16(d), a) {
            Err(e) => Err(e),
            Ok((n, a, d)) => match sp_repeat(point_item(), a, d, n as nat) {
                Err(e) => Err(e),
                Ok((points, a, d)) => match lift(dg_floats(d, 16), a) {
                    Err(e) => Err(e),
                    Ok((to_2d_matrix, a, d)) => if a.header.version.minor < 13 {
                        Err(Error::Unimplemented)
                    } else {
                        Ok((CollisionPolygonView { inner, points, to_2d_matrix }, a, d))
                    },
                },
            },
        },
    }
}

impl CollisionPolygon {
    pub fn create(loader: &mut BinaryAsset, data: &mut Datagram) -> (r: Result<Self, Error>)
        requires
            old(data).wf(),
        ensures
            final(loader).header == old(loader).header,
            final(data).wf(),
            outcome(r, sp_collision_polygon(old(loader)@, old(data)@), final(loader)@, final(data)@),
    {
        let inner = match CollisionPlane::create(loader, data) {
            Ok(p) => p,
            Err(e) => return Err(e),
        };
        let point_count = match data.read_u16() {
            Ok(v) => v,
            Err(e) => return Err(Error::DataError(e)),
        };
        let ghost a0 = loader@;
        let ghost d0 = data@;
        let mut points: Vec<Vec<FloatBits>> = Vec::new();
        assert(points.deep_view() =~= Seq::<Seq<FloatBits>>::empty());
        let mut i: u16 = 0;
        while i < point_count
            invariant
                loader.header == old(loader).header,
                data.wf(),
                i <= point_count,
                sp_collision_polygon(old(loader)@, old(data)@) == match sp_repeat(point_item(), a0, d0, point_count as nat) {
                    Err(e) => Err(e),
                    Ok((points, a, d)) => match lift(dg_floats(d, 16), a) {
                        Err(e) => Err(e),
                        Ok((to_2d_matrix, a, d)) => if a.header.version.minor < 13 {
                            Err(Error::Unimplemented)
                        } else {
                            Ok((CollisionPolygonView { inner: inner@, points, to_2d_matrix }, a, d))
                        },
                    },
                },
                sp_repeat(point_item(), a0, d0, i as nat) == Ok::<(Seq<Seq<FloatBits>>, AssetView, DgView), Error>((points.deep_view(), loader@, data@)),
            decreases point_count - i,
        {
            let point = match data.read_floats(4) {
                Ok(v) => v,
                Err(e) => {
                    proof {
                        lemma_repeat_err(point_item(), a0, d0, (i + 1) as nat, point_count as nat);
                    }
                    return Err(Error::DataError(e));
                },
            };
            let ghost before = points.deep_view();
            assert(point.deep_view() =~= point@);
            points.push(point);
            assert(points.deep_view() =~= before.push(point@));
            i = i + 1;
        }
        let to_2d_matrix = match data.read_floats(16) {
            Ok(v) => v,
            Err(e) => return Err(Error::DataError(e)),
        };
        if loader.get_minor_version() < 13 {
            return Err(Error::Unimplemented);
        }
        Ok(CollisionPolygon { inner, points, to_2d_matrix })
    }
}

/// The abstract value of a CollisionCapsule.
pub struct CollisionCapsuleView {
    pub inner: CollisionSolidView,
    pub a: Seq<FloatBits>,
    pub b: Seq<FloatBits>,
    pub radius: FloatBits,
}

/// A collision capsule: the points at the centers of its two ends and its radius. Its length
/// and orientation follow from the two points and are left to callers that compute with
/// floats.
pub struct CollisionCapsule {
    pub inner: CollisionSolid,
    /// Three floats.
    pub a: Vec<FloatBits>,
    /// Three floats.
    pub b: Vec<FloatBits>,
    pub radius: FloatBits,
}

impl View for CollisionCapsule {
    type V = CollisionCapsuleView;

    open spec fn view(&self) -> CollisionCapsuleView {
        CollisionCapsuleView { inner: self.inner@, a: self.a@, b: self.b@, radius: self.radius }
    }
}

/// Reads a CollisionCapsule: a CollisionSolid, the two end points (three floats each) and the
/// radius.
pub open spec fn sp_collision_capsule(a: AssetView, d: DgView) -> PR<CollisionCapsuleView> {
    match sp_collision_solid(a, d) {
        Err(e) => Err(e),
        Ok((inner, a, d)) => match lift(dg_floats(d, 3), a) {
            Err(e) => Err(e),
            Ok((pa, a, d)) => match lift(dg_floats(d, 3), a) {
                Err(e) => Err(e),
                Ok((pb, a, d)) => match lift(dg_float(d), a) {
                    Err(e) => Err(e),
                    Ok((radius, a, d)) => Ok((CollisionCapsuleView { inner, a: pa, b: pb, radius }, a, d)),
                },
            },
        },
    }
}

impl CollisionCapsule {
    pub fn create(loader: &mut BinaryAsset, data: &mut Datagram) -> (r: Result<Self, Error>)
        requires
            old(data).wf(),
        ensures
            final(loader).header == old(loader).header,
            final(data).wf(),
            outcome(r, sp_collision_capsule(old(loader)@, old(data)@), final(loader)@, final(data)@),
    {
        let inner = match CollisionSolid::create(loader, data) {
            Ok(s) => s,
            Err(e) => return Err(e),
        };
        let a = match data.read_floats(3) {
            Ok(v) => v,
            Err(e) => return Err(Error::DataError(e)),
        };
        let b = match data.read_floats(3) {
            Ok(v) => v,
            Err(e) => return Err(Error::DataError(e)),
        };
        let radius = match data.read_float() {
            Ok(v) => v,
            Err(e) => return Err(Error::DataError(e)),
        };
        Ok(CollisionCapsule { inner, a, b, radius })
    }
}

} // verus!
