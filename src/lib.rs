//! A spinning prize wheel: a circle cut into labelled, coloured slices, a
//! spin that decays to a stop, and the slice under the fixed marker.
//!
//! Everything here works on integers: angles of the layout in whole
//! degrees, the live rotation in hundred-thousandths of a radian, time in
//! milliseconds and momentum in thousandths.
pub mod gesture;
pub mod layout;
pub mod spin;
