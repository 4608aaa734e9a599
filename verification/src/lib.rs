//! The four-entry color palette of a fantasy console: packed RGB colors,
//! their channels, and the palette register that holds four of them.

pub mod color;
pub mod layout;
pub mod named;
pub mod palette;
pub mod text;
