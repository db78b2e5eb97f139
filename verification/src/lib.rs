//! Simulation core of a lane-based tower-defence game: defenders are planted
//! on the slots of a lawn and hold it against waves of invaders.
//!
//! The core knows no engine. Entities are plain integer handles, and every
//! pass is a function from the records it reads to the records it changes
//! and the things that are to happen: entities to bring in or to remove,
//! cues to schedule, animations to play. What is drawn or heard is left to
//! the caller.
//!
//! Real-valued quantities are held in fixed point: time in nanoseconds, hit
//! points in thousandths of a point, lengths in thousandths of a world unit
//! and speeds in thousandths of a world unit per second. Fixed-point
//! arithmetic rounds toward zero and stops at the bounds of its type, as
//! [`fixed`] says; counters neither round nor stop, and the functions that
//! count say what they need so as not to overflow.
//!
//! Countdowns are ticked by the engine's timer and random draws come from the
//! thread's generator; [`timer`] and [`rng`] say what is taken on trust of
//! either. Everything else is proved.

pub mod anim;
pub mod button;
pub mod chooser;
pub mod combat;
pub mod field;
pub mod fixed;
pub mod geom;
pub mod instant;
pub mod level;
pub mod motion;
pub mod music;
pub mod plant;
pub mod planting;
pub mod produce;
pub mod progress;
pub mod reward;
pub mod rng;
pub mod round;
pub mod seed;
pub mod shoot;
pub mod solt;
pub mod spatial;
pub mod sunshine;
pub mod timeline;
pub mod timer;
pub mod wave;
pub mod zombie;
