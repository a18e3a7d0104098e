//! The decisions of a terminal emulator's display: how it starts up, how it answers a resize and
//! what it draws, apart from the window, font and GPU libraries that carry the decisions out.

pub mod arithmetic;
pub mod config;
pub mod display;
pub mod draw;
pub mod error;
pub mod font;
pub mod laws;
pub mod resize;
pub mod size_info;
pub mod startup;
