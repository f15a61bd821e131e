//! Radius search: a clamped rectangle sweep plus a distance filter.
//!
//! Great-circle distances are not computed here; the scan produces the
//! candidate cells of the sweep, and the caller hands each candidate's
//! center distance back to the filter. Everything the search decides —
//! the clamped box, the zero- and negative-radius special cases, and which
//! distances pass — is stated and verified here.

use vstd::prelude::*;

verus! {

use crate::bounding_box::BoundingBox;
use crate::convert::{coord_to_mesh_units, mesh_to_center};
use crate::coordinate::Coordinate;
use crate::grid::{
    encode_spec,
    in_envelope,
    lat_size,
    lon_size,
    ENVELOPE_LAT_MAX,
    ENVELOPE_LAT_MIN,
    ENVELOPE_LON_MAX,
    ENVELOPE_LON_MIN,
    MAX_ABS_UNITS,
};
use crate::level::MeshLevel;
use crate::mesh_code::MeshCode;
use crate::range::{sweep_from, MeshCodeIterator};

/// Lowest latitude of the search box: the center minus the half-extent,
/// clamped to the envelope floor.
pub open spec fn clamp_min_lat(c: int, h: int) -> int {
    if c - h < ENVELOPE_LAT_MIN {
        ENVELOPE_LAT_MIN as int
    } else {
        c - h
    }
}

/// Highest latitude of the search box, clamped to the envelope ceiling.
pub open spec fn clamp_max_lat(c: int, h: int) -> int {
    if c + h > ENVELOPE_LAT_MAX {
        ENVELOPE_LAT_MAX as int
    } else {
        c + h
    }
}

/// Lowest longitude of the search box, clamped to the envelope floor.
pub open spec fn clamp_min_lon(c: int, h: int) -> int {
    if c - h < ENVELOPE_LON_MIN {
        ENVELOPE_LON_MIN as int
    } else {
        c - h
    }
}

/// Highest longitude of the search box, clamped to the envelope ceiling.
pub open spec fn clamp_max_lon(c: int, h: int) -> int {
    if c + h > ENVELOPE_LON_MAX {
        ENVELOPE_LON_MAX as int
    } else {
        c + h
    }
}

/// The candidate codes of a radius search: the sweep of the clamped box
/// around the center.
pub open spec fn radius_sweep(
    clat: int,
    clon: int,
    lat_half: int,
    lon_half: int,
    level: MeshLevel,
) -> Seq<int> {
    sweep_from(
        clamp_min_lat(clat, lat_half),
        clamp_min_lon(clon, lon_half),
        clamp_min_lon(clon, lon_half),
        clamp_max_lat(clat, lat_half),
        clamp_max_lon(clon, lon_half),
        lat_size(level),
        lon_size(level),
        level,
    )
}

/// A radius search in progress: candidates come from a rectangle sweep, a
/// zero radius short-circuits to the center's own cell, and a negative
/// radius yields nothing.
pub struct MeshCodeRadiusIterator {
    bbox_iter: MeshCodeIterator,
    center: Coordinate,
    radius_mm: i64,
    emitted_center: bool,
    level: MeshLevel,
}

impl MeshCodeRadiusIterator {
    /// The query center.
    pub closed spec fn spec_center(self) -> Coordinate {
        self.center
    }

    /// The query radius in millimeters; negative radii match nothing.
    pub closed spec fn spec_radius_mm(self) -> i64 {
        self.radius_mm
    }

    /// The level of the produced codes.
    pub closed spec fn spec_level(self) -> MeshLevel {
        self.level
    }

    /// Whether the zero-radius single answer has already been produced.
    pub closed spec fn spec_emitted(self) -> bool {
        self.emitted_center
    }

    /// The candidate codes the sweep will still produce.
    pub closed spec fn candidates(self) -> Seq<int> {
        self.bbox_iter.remaining()
    }

    /// The sweep runs at the search's level, the stored radius is never
    /// negative, and the zero-radius answer can only have been produced by a
    /// zero-radius search. This holds of every value of the type.
    #[verifier::type_invariant]
    spec fn inv(self) -> bool {
        self.bbox_iter.spec_level() == self.level && self.radius_mm >= 0 && (self.radius_mm > 0
            ==> !self.emitted_center)
    }

    /// Prepares a radius search around a center, with the box half-extents
    /// (in angle units) that the metric radius converts to.
    ///
    /// A zero radius uses an empty box, since its single answer bypasses the
    /// sweep; a negative radius starts already exhausted.
    pub fn new(
        center: Coordinate,
        radius_mm: i64,
        lat_half: i64,
        lon_half: i64,
        level: MeshLevel,
    ) -> (r: Self)
        requires
            0 <= lat_half <= MAX_ABS_UNITS,
            0 <= lon_half <= MAX_ABS_UNITS,
        ensures
            r.spec_center() == center,
            r.spec_level() == level,
            r.spec_radius_mm() == (if radius_mm < 0 {
                0
            } else {
                radius_mm
            }),
            radius_mm < 0 ==> r.spec_emitted(),
            radius_mm >= 0 ==> !r.spec_emitted(),
            radius_mm > 0 ==> r.candidates() == radius_sweep(
                center.spec_lat() as int,
                center.spec_lon() as int,
                lat_half as int,
                lon_half as int,
                level,
            ),
            radius_mm == 0 ==> r.candidates() == radius_sweep(
                center.spec_lat() as int,
                center.spec_lon() as int,
                0,
                0,
                level,
            ),
    {
        proof {
            use_type_invariant(&center);
        }
        if radius_mm < 0 {
            let empty_bbox = BoundingBox::new(center, center);
            return MeshCodeRadiusIterator {
                bbox_iter: MeshCodeIterator::new(empty_bbox, level),
                center,
                radius_mm: 0,
                emitted_center: true,
                level,
            };
        }
        let lh: i64 = if radius_mm == 0 {
            0
        } else {
            lat_half
        };
        let oh: i64 = if radius_mm == 0 {
            0
        } else {
            lon_half
        };
        let mut min_lat = center.lat() - lh;
        if min_lat < ENVELOPE_LAT_MIN {
            min_lat = ENVELOPE_LAT_MIN;
        }
        let mut max_lat = center.lat() + lh;
        if max_lat > ENVELOPE_LAT_MAX {
            max_lat = ENVELOPE_LAT_MAX;
        }
        let mut min_lon = center.lon() - oh;
        if min_lon < ENVELOPE_LON_MIN {
            min_lon = ENVELOPE_LON_MIN;
        }
        let mut max_lon = center.lon() + oh;
        if max_lon > ENVELOPE_LON_MAX {
            max_lon = ENVELOPE_LON_MAX;
        }
        let sw = Coordinate::new_unchecked(min_lat, min_lon);
        let ne = Coordinate::new_unchecked(max_lat, max_lon);
        let bbox = BoundingBox::new(sw, ne);
        MeshCodeRadiusIterator {
            bbox_iter: MeshCodeIterator::new(bbox, level),
            center,
            radius_mm,
            emitted_center: false,
            level,
        }
    }

    /// Whether a candidate whose center lies at the given distance, in
    /// millimeters, belongs to the result.
    pub fn keep(&self, dist_mm: i64) -> (r: bool)
        ensures
            r == (dist_mm <= self.spec_radius_mm()),
    {
        dist_mm <= self.radius_mm
    }

    /// Produces the next candidate cell, or signals exhaustion.
    ///
    /// With a zero radius, the single candidate is the cell containing the
    /// center itself, produced once and without a sweep; a center outside
    /// the envelope (and any negative-radius search) yields nothing.
    pub fn next_candidate(&mut self) -> (r: Option<MeshCode>)
        ensures
            final(self).spec_center() == old(self).spec_center(),
            final(self).spec_radius_mm() == old(self).spec_radius_mm(),
            final(self).spec_level() == old(self).spec_level(),
            old(self).spec_emitted() ==> r is None,
            (old(self).spec_radius_mm() == 0 && !old(self).spec_emitted()) ==> (final(self).spec_emitted() && (if in_envelope(
                old(self).spec_center().spec_lat() as int,
                old(self).spec_center().spec_lon() as int,
            ) {
                r matches Some(m) && m.spec_level() == old(self).spec_level() && m.spec_code()
                    == encode_spec(
                    old(self).spec_center().spec_lat() as int,
                    old(self).spec_center().spec_lon() as int,
                    old(self).spec_level(),
                )
            } else {
                r is None
            })),
            (old(self).spec_radius_mm() > 0) ==> (final(self).spec_emitted() == old(self).spec_emitted() && (if old(self).candidates().len() == 0 {
                r is None && final(self).candidates().len() == 0
            } else {
                r matches Some(m) && m.spec_level() == old(self).spec_level() && m.spec_code()
                    == old(self).candidates()[0] && final(self).candidates() == old(self).candidates().subrange(1, old(self).candidates().len() as int)
            })),
    {
        proof {
            use_type_invariant(&*self);
        }
        if self.emitted_center {
            return None;
        }
        if self.radius_mm == 0 {
            self.emitted_center = true;
            let lat = self.center.lat();
            let lon = self.center.lon();
            if lat >= ENVELOPE_LAT_MIN && lat <= ENVELOPE_LAT_MAX && lon >= ENVELOPE_LON_MIN
                && lon <= ENVELOPE_LON_MAX {
                let m = coord_to_mesh_units(lat, lon, self.level);
                return Some(m);
            }
            return None;
        }
        let placeholder = Coordinate::new_unchecked(0, 0);
        let mut sweep = MeshCodeIterator::new(
            BoundingBox::new(placeholder, placeholder),
            self.level,
        );
        core::mem::swap(&mut sweep, &mut self.bbox_iter);
        let r = sweep.next();
        core::mem::swap(&mut sweep, &mut self.bbox_iter);
        r
    }
}

/// The candidates whose distances pass the radius filter, in sweep order.
pub open spec fn kept_codes(cands: Seq<int>, dists: Seq<int>, radius: int) -> Seq<int>
    decreases cands.len(),
{
    if cands.len() == 0 || dists.len() == 0 {
        Seq::empty()
    } else {
        let rest = kept_codes(
            cands.subrange(1, cands.len() as int),
            dists.subrange(1, dists.len() as int),
            radius,
        );
        if dists[0] <= radius {
            seq![cands[0]] + rest
        } else {
            rest
        }
    }
}

/// Enlarging the radius never loses results: for the same candidates and
/// distances, every code kept at the smaller radius is kept at the larger
/// one, and the filtered candidate count is non-decreasing in the radius.
pub proof fn lemma_kept_monotone(cands: Seq<int>, dists: Seq<int>, r1: int, r2: int)
    requires
        r1 <= r2,
    ensures
        kept_codes(cands, dists, r1).len() <= kept_codes(cands, dists, r2).len(),
        forall|x: int| #[trigger] kept_codes(cands, dists, r1).contains(x) ==> kept_codes(
            cands,
            dists,
            r2,
        ).contains(x),
    decreases cands.len(),
{
    if cands.len() == 0 || dists.len() == 0 {
    } else {
        lemma_kept_monotone(
            cands.subrange(1, cands.len() as int),
            dists.subrange(1, dists.len() as int),
            r1,
            r2,
        );
        let k1 = kept_codes(cands, dists, r1);
        let k2 = kept_codes(cands, dists, r2);
        let rest1 = kept_codes(
            cands.subrange(1, cands.len() as int),
            dists.subrange(1, dists.len() as int),
            r1,
        );
        let rest2 = kept_codes(
            cands.subrange(1, cands.len() as int),
            dists.subrange(1, dists.len() as int),
            r2,
        );
        assert forall|x: int| #[trigger] k1.contains(x) implies k2.contains(x) by {
            let i = choose|i: int| 0 <= i < k1.len() && k1[i] == x;
            if dists[0] <= r1 {
                if i == 0 {
                    assert(k2[0] == x);
                } else {
                    assert(rest1[i - 1] == x);
                    assert(rest1.contains(x));
                    assert(rest2.contains(x));
                    let j = choose|j: int| 0 <= j < rest2.len() && rest2[j] == x;
                    assert(k2[j + 1] == x);
                }
            } else if dists[0] <= r2 {
                assert(rest1.contains(x));
                assert(rest2.contains(x));
                let j = choose|j: int| 0 <= j < rest2.len() && rest2[j] == x;
                assert(k2[j + 1] == x);
            } else {
                assert(rest1.contains(x));
                assert(rest2.contains(x));
            }
        }
    }
}

/// Keeps the candidates whose center distances, in millimeters, are within
/// the radius. Candidates and distances correspond by index.
pub fn codes_within(codes: &Vec<MeshCode>, dists: &Vec<i64>, radius_mm: i64) -> (r: Vec<MeshCode>)
    requires
        codes@.len() == dists@.len(),
    ensures
        r@.map_values(|m: MeshCode| m.spec_code() as int) == kept_codes(
            codes@.map_values(|m: MeshCode| m.spec_code() as int),
            dists@.map_values(|d: i64| d as int),
            radius_mm as int,
        ),
        forall|j: int| 0 <= j < r@.len() ==> codes@.contains(#[trigger] r@[j]),
{
    let ghost fc = |m: MeshCode| m.spec_code() as int;
    let ghost fd = |d: i64| d as int;
    let ghost cs = codes@.map_values(fc);
    let ghost ds = dists@.map_values(fd);
    let mut out: Vec<MeshCode> = Vec::new();
    let mut i: usize = 0;
    proof {
        assert(cs.subrange(0, cs.len() as int) =~= cs);
        assert(ds.subrange(0, ds.len() as int) =~= ds);
        assert(out@.map_values(fc) =~= Seq::<int>::empty());
        assert(Seq::<int>::empty() + kept_codes(cs, ds, radius_mm as int) =~= kept_codes(
            cs,
            ds,
            radius_mm as int,
        ));
    }
    while i < codes.len()
        invariant
            i <= codes@.len() == dists@.len(),
            forall|m: MeshCode| #[trigger] fc(m) == m.spec_code() as int,
            forall|d: i64| #[trigger] fd(d) == d as int,
            cs == codes@.map_values(fc),
            ds == dists@.map_values(fd),
            out@.map_values(fc) + kept_codes(
                cs.subrange(i as int, cs.len() as int),
                ds.subrange(i as int, ds.len() as int),
                radius_mm as int,
            ) == kept_codes(cs, ds, radius_mm as int),
            forall|j: int| 0 <= j < out@.len() ==> codes@.contains(#[trigger] out@[j]),
        decreases codes@.len() - i,
    {
        let ghost csuf = cs.subrange(i as int, cs.len() as int);
        let ghost dsuf = ds.subrange(i as int, ds.len() as int);
        proof {
            assert(csuf.subrange(1, csuf.len() as int) =~= cs.subrange(i + 1, cs.len() as int));
            assert(dsuf.subrange(1, dsuf.len() as int) =~= ds.subrange(i + 1, ds.len() as int));
            assert(cs[i as int] == fc(codes@[i as int]));
            assert(ds[i as int] == fd(dists@[i as int]));
            assert(csuf[0] == cs[i as int] && dsuf[0] == ds[i as int]);
        }
        if dists[i] <= radius_mm {
            let ghost prev = out@;
            out.push(codes[i]);
            proof {
                assert(codes@.contains(codes@[i as int]));
                assert(out@.map_values(fc) =~= prev.map_values(fc) + seq![cs[i as int]]);
                assert(csuf.len() > 0 && dsuf.len() > 0);
                assert(dsuf[0] <= radius_mm as int);
                assert(kept_codes(csuf, dsuf, radius_mm as int) == seq![csuf[0]] + kept_codes(
                    csuf.subrange(1, csuf.len() as int),
                    dsuf.subrange(1, dsuf.len() as int),
                    radius_mm as int,
                ));
                assert(kept_codes(csuf, dsuf, radius_mm as int) == seq![cs[i as int]]
                    + kept_codes(
                    cs.subrange(i + 1, cs.len() as int),
                    ds.subrange(i + 1, ds.len() as int),
                    radius_mm as int,
                ));
                assert(out@.map_values(fc) + kept_codes(
                    cs.subrange(i + 1, cs.len() as int),
                    ds.subrange(i + 1, ds.len() as int),
                    radius_mm as int,
                ) =~= prev.map_values(fc) + kept_codes(csuf, dsuf, radius_mm as int));
            }
        } else {
            proof {
                assert(csuf.len() > 0 && dsuf.len() > 0);
                assert(!(dsuf[0] <= radius_mm as int));
                assert(kept_codes(csuf, dsuf, radius_mm as int) == kept_codes(
                    csuf.subrange(1, csuf.len() as int),
                    dsuf.subrange(1, dsuf.len() as int),
                    radius_mm as int,
                ));
                assert(kept_codes(csuf, dsuf, radius_mm as int) == kept_codes(
                    cs.subrange(i + 1, cs.len() as int),
                    ds.subrange(i + 1, ds.len() as int),
                    radius_mm as int,
                ));
            }
        }
        i = i + 1;
    }
    proof {
        assert(out@.map_values(|m: MeshCode| m.spec_code() as int) =~= out@.map_values(fc));
        assert(codes@.map_values(|m: MeshCode| m.spec_code() as int) =~= cs);
        assert(dists@.map_values(|d: i64| d as int) =~= ds);
        assert(cs.subrange(i as int, cs.len() as int).len() == 0);
        assert(kept_codes(
            cs.subrange(i as int, cs.len() as int),
            ds.subrange(i as int, ds.len() as int),
            radius_mm as int,
        ) =~= Seq::<int>::empty());
        assert(out@.map_values(fc) + Seq::<int>::empty() =~= out@.map_values(fc));
    }
    out
}

/// A radius search around a coordinate: candidates from the clamped box
/// sweep at the given level, to be filtered by center distance.
pub fn mesh_codes_in_radius(
    center: Coordinate,
    radius_mm: i64,
    lat_half: i64,
    lon_half: i64,
    level: MeshLevel,
) -> (r: MeshCodeRadiusIterator)
    requires
        0 <= lat_half <= MAX_ABS_UNITS,
        0 <= lon_half <= MAX_ABS_UNITS,
    ensures
        r.spec_center() == center,
        r.spec_level() == level,
        r.spec_radius_mm() == (if radius_mm < 0 {
            0
        } else {
            radius_mm
        }),
        radius_mm < 0 ==> r.spec_emitted(),
        radius_mm >= 0 ==> !r.spec_emitted(),
        radius_mm > 0 ==> r.candidates() == radius_sweep(
            center.spec_lat() as int,
            center.spec_lon() as int,
            lat_half as int,
            lon_half as int,
            level,
        ),
        radius_mm == 0 ==> r.candidates() == radius_sweep(
            center.spec_lat() as int,
            center.spec_lon() as int,
            0,
            0,
            level,
        ),
{
    MeshCodeRadiusIterator::new(center, radius_mm, lat_half, lon_half, level)
}

/// A radius search around a mesh code's own center, at that code's level.
pub fn mesh_codes_in_radius_from_mesh(
    mesh: MeshCode,
    radius_mm: i64,
    lat_half: i64,
    lon_half: i64,
) -> (r: MeshCodeRadiusIterator)
    requires
        0 <= lat_half <= MAX_ABS_UNITS,
        0 <= lon_half <= MAX_ABS_UNITS,
    ensures
        r.spec_center().spec_lat() == crate::grid::decode_center(
            mesh.spec_level(),
            mesh.spec_code() as int,
        ).0,
        r.spec_center().spec_lon() == crate::grid::decode_center(
            mesh.spec_level(),
            mesh.spec_code() as int,
        ).1,
        r.spec_level() == mesh.spec_level(),
        r.spec_radius_mm() == (if radius_mm < 0 {
            0
        } else {
            radius_mm
        }),
        radius_mm < 0 ==> r.spec_emitted(),
        radius_mm >= 0 ==> !r.spec_emitted(),
        radius_mm > 0 ==> r.candidates() == radius_sweep(
            crate::grid::decode_center(mesh.spec_level(), mesh.spec_code() as int).0,
            crate::grid::decode_center(mesh.spec_level(), mesh.spec_code() as int).1,
            lat_half as int,
            lon_half as int,
            mesh.spec_level(),
        ),
        radius_mm == 0 ==> r.candidates() == radius_sweep(
            crate::grid::decode_center(mesh.spec_level(), mesh.spec_code() as int).0,
            crate::grid::decode_center(mesh.spec_level(), mesh.spec_code() as int).1,
            0,
            0,
            mesh.spec_level(),
        ),
{
    let center = mesh_to_center(mesh);
    let level = mesh.level();
    MeshCodeRadiusIterator::new(center, radius_mm, lat_half, lon_half, level)
}

} // verus!
