//! Decision logic of a webcam application: which capture settings a camera
//! offers, how camera commands change the capture state, what happens with
//! each preview frame, and the texts and file names the application shows
//! and writes.

pub mod capabilities;
pub mod commands;
pub mod events;
pub mod files;
pub mod frames;
pub mod power;
pub mod text;
