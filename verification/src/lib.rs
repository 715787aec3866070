//! State and animation engine of a sprite character.
//!
//! A character is driven once per fixed tick: the held buttons give a
//! velocity, the velocity and the action button give the character's state and
//! facing, state and facing select an animation clip whenever either of them
//! changes, and the clip's cursor moves on with the time that has passed.

pub mod animation;
pub mod player;
mod timer;
