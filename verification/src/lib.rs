//! A generational arena: a growable pool of slots addressed by stable
//! positions, where each slot carries a generation counter so that a
//! handle (position + generation) can detect whether the element it was
//! issued for is still the one stored at that position.

pub mod arena;
pub mod entity;
