//! Runtime core of a visual-novel engine: time-based interpolation
//! ("tweens") and a screen manager that crossfades between screens and
//! recovers from screen errors.
//!
//! Time is measured in whole microseconds and opacities and progress values
//! are exact fractions, so every rule below is stated and proved over
//! integers.
//!
//! - `tween`: the tween family and its laws.
//! - `manager`: the closed set of screens and the screen manager.
//! - `splash`, `menu`, `game`, `error`: the screens' own logic.
//! - `rich_text`: inline link markup.
//! - `geometry`: pixel layout.
//! - `assets`: where images and sounds are looked for.

pub mod assets;
pub mod error;
pub mod game;
pub mod geometry;
pub mod manager;
pub mod menu;
pub mod rich_text;
pub mod splash;
pub mod tween;
