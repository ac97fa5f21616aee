//! The simulation core of an asteroids arcade game.
//!
//! The crate advances a ship, its bullets and a field of asteroids by one frame
//! at a time and decides when a session is won or lost. Windowing, input
//! polling and drawing belong to the caller, who hands in the held controls,
//! the time and the extent of the screen, and draws what comes back.
//!
//! All of it is whole-number arithmetic. Lengths are in units, a thousand to
//! the pixel; headings are in whole degrees, clockwise from straight up; times
//! are in thousandths of a second. What in a game is left to chance is drawn
//! from a random source within fixed bounds: each function that draws says
//! what holds of every draw, and has beside it a function that takes the
//! drawn numbers as arguments and says exactly what they lead to.
//!
//! - `space`: positions, the screen, wrap-around, the overlap test
//! - `heading`: sines, cosines and displacements
//! - `bullet`, `ship`, `asteroid`: the three kinds of things that move
//! - `field`: strikes, splits and moves of all asteroids together
//! - `game`: the session, its frame and its phases
//! - `laws`: what holds of every frame

pub mod asteroid;
pub mod bullet;
mod chance;
pub mod field;
pub mod game;
pub mod heading;
pub mod laws;
pub mod ship;
pub mod space;
