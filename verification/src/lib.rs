//! Picture-of-the-day wallpaper logic: provider selection, the daily cache gate, image
//! modifiers and the caption compositor, each with a machine-checked contract.

pub mod bitmap;
pub mod cache;
pub mod config;
pub mod modifiers;
pub mod picture_io;
