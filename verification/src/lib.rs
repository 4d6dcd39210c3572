//! Decision and data logic of the Luma11y colour-contrast picker: colour formatting,
//! the picker state machine, screen-capture pixel decoding, redraw geometry, ICC profile
//! selection, menu translation and menu event dispatch.

mod text;
pub mod color;
pub mod picker;
pub mod capture;
pub mod geometry;
pub mod keys;
pub mod icc;
pub mod i18n;
pub mod menu;
pub mod overlay;
pub mod permissions;
pub mod session;
