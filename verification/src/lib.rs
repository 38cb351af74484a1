//! Integer logic of the dust-map query service: HEALPix resolution
//! parameters, the shape checks that guard the memory-mapped maps, the
//! Bayestar footprint lookup and the distance-modulus bin search.

pub mod geometry;
pub mod npy;
pub mod bayestar;
pub mod paths;
pub mod csfd;
