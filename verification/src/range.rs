//! Lazy enumeration of the mesh cells tiling a rectangle.

use vstd::prelude::*;

verus! {

use crate::bounding_box::BoundingBox;
use crate::grid::{
    encode_spec,
    ENVELOPE_LAT_MAX,
    ENVELOPE_LAT_MIN,
    ENVELOPE_LON_MAX,
    ENVELOPE_LON_MIN,
    in_envelope,
    lat_size,
    lemma_size_facts,
    lon_size,
    MAX_ABS_UNITS,
};
use crate::level::MeshLevel;
use crate::mesh_code::MeshCode;

/// The codes still to be produced by a sweep whose cursor stands at
/// (`lat`, `lon`): row-major over the sample lattice, south to north and
/// west to east, one cell extent per step, both box edges inclusive. Sample
/// points outside the supported envelope yield nothing.
pub open spec fn sweep_from(
    lat: int,
    lon: int,
    min_lon: int,
    max_lat: int,
    max_lon: int,
    dlat: int,
    dlon: int,
    level: MeshLevel,
) -> Seq<int>
    decreases max_lat - lat + dlat, max_lon - lon + dlon,
        when dlat > 0 && dlon > 0
{
    if lat > max_lat {
        Seq::empty()
    } else if lon > max_lon {
        sweep_from(lat + dlat, min_lon, min_lon, max_lat, max_lon, dlat, dlon, level)
    } else if in_envelope(lat, lon) {
        seq![encode_spec(lat, lon, level)] + sweep_from(
            lat,
            lon + dlon,
            min_lon,
            max_lat,
            max_lon,
            dlat,
            dlon,
            level,
        )
    } else {
        sweep_from(lat, lon + dlon, min_lon, max_lat, max_lon, dlat, dlon, level)
    }
}

/// The full sweep of a rectangle at a level, starting at its south-west
/// corner.
pub open spec fn sweep_box(bbox: BoundingBox, level: MeshLevel) -> Seq<int> {
    sweep_from(
        bbox.spec_south_west().spec_lat() as int,
        bbox.spec_south_west().spec_lon() as int,
        bbox.spec_south_west().spec_lon() as int,
        bbox.spec_north_east().spec_lat() as int,
        bbox.spec_north_east().spec_lon() as int,
        lat_size(level),
        lon_size(level),
        level,
    )
}

/// A restartable cursor over the mesh cells whose sample points tile a
/// rectangle at a fixed level.
pub struct MeshCodeIterator {
    bbox: BoundingBox,
    level: MeshLevel,
    current_lat: i64,
    current_lon: i64,
    lat_step: i64,
    lon_step: i64,
}

impl MeshCodeIterator {
    /// The level the iterator produces codes at.
    pub closed spec fn spec_level(self) -> MeshLevel {
        self.level
    }

    /// The rectangle being swept.
    pub closed spec fn spec_bbox(self) -> BoundingBox {
        self.bbox
    }

    /// The codes this iterator will still produce.
    pub closed spec fn remaining(self) -> Seq<int> {
        sweep_from(
            self.current_lat as int,
            self.current_lon as int,
            self.bbox.spec_south_west().spec_lon() as int,
            self.bbox.spec_north_east().spec_lat() as int,
            self.bbox.spec_north_east().spec_lon() as int,
            lat_size(self.level),
            lon_size(self.level),
            self.level,
        )
    }

    /// The steps equal the level's cell extents and the cursor stays within
    /// one step of the ±360° range. This holds of every value of the type.
    #[verifier::type_invariant]
    spec fn inv(self) -> bool {
        self.lat_step == lat_size(self.level) && self.lon_step == lon_size(self.level)
            && -MAX_ABS_UNITS <= self.current_lat <= MAX_ABS_UNITS + self.lat_step
            && -MAX_ABS_UNITS <= self.current_lon <= MAX_ABS_UNITS + self.lon_step
    }

    /// A sweep of a rectangle, starting at its south-west corner.
    pub fn new(bbox: BoundingBox, level: MeshLevel) -> (r: Self)
        ensures
            r.spec_level() == level,
            r.spec_bbox() == bbox,
            r.remaining() == sweep_box(bbox, level),
    {
        let sw = bbox.south_west();
        proof {
            use_type_invariant(&sw);
            lemma_size_facts(level);
        }
        MeshCodeIterator {
            bbox,
            level,
            current_lat: sw.lat(),
            current_lon: sw.lon(),
            lat_step: level.lat_size_units(),
            lon_step: level.lon_size_units(),
        }
    }

    /// Produces the next cell of the sweep, or signals exhaustion.
    pub fn next(&mut self) -> (r: Option<MeshCode>)
        ensures
            final(self).spec_level() == old(self).spec_level(),
            final(self).spec_bbox() == old(self).spec_bbox(),
            old(self).remaining().len() == 0 ==> (r is None && final(self).remaining().len() == 0),
            old(self).remaining().len() > 0 ==> (r matches Some(m) && m.spec_level() == old(
                self,
            ).spec_level() && m.spec_code() == old(self).remaining()[0] && final(self).remaining()
                == old(self).remaining().subrange(1, old(self).remaining().len() as int)),
    {
        loop
            invariant
                self.level == old(self).level,
                self.bbox == old(self).bbox,
                self.remaining() == old(self).remaining(),
            decreases
                    self.bbox.spec_north_east().spec_lat() - self.current_lat + self.lat_step,
                    self.bbox.spec_north_east().spec_lon() - self.current_lon + self.lon_step,
        {
            let ne = self.bbox.north_east();
            let sw = self.bbox.south_west();
            proof {
                use_type_invariant(&*self);
                use_type_invariant(&ne);
                use_type_invariant(&sw);
                lemma_size_facts(self.level);
            }
            if self.current_lat > ne.lat() {
                return None;
            }
            if self.current_lon > ne.lon() {
                self.current_lat = self.current_lat + self.lat_step;
                self.current_lon = sw.lon();
            } else {
                let lat = self.current_lat;
                let lon = self.current_lon;
                self.current_lon = self.current_lon + self.lon_step;
                if lat >= ENVELOPE_LAT_MIN && lat <= ENVELOPE_LAT_MAX && lon >= ENVELOPE_LON_MIN
                    && lon <= ENVELOPE_LON_MAX {
                    let m = crate::convert::coord_to_mesh_units(lat, lon, self.level);
                    proof {
                        let rest = self.remaining();
                        assert((seq![m.spec_code() as int] + rest).subrange(
                            1,
                            (1 + rest.len()) as int,
                        ) =~= rest);
                    }
                    return Some(m);
                }
            }
        }
    }
}

/// A lazy sweep of the mesh cells whose sample points tile a rectangle.
pub fn mesh_codes_in_bbox(bbox: BoundingBox, level: MeshLevel) -> (r: MeshCodeIterator)
    ensures
        r.spec_level() == level,
        r.spec_bbox() == bbox,
        r.remaining() == sweep_box(bbox, level),
{
    MeshCodeIterator::new(bbox, level)
}

} // verus!
