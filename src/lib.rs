//! A retained-mode UI composition core: size negotiation, layout, hit-testing
//! and focus traversal over integer device coordinates.
//!
//! Elements report their admissible sizes (`limits`) and their claim on
//! extra space (`stretch`); the layout engines (`tile`, `grid`) turn those
//! into child rectangles, the proxies (`proxy`) transform them for a single
//! subject, and `composite` and `tree` route input and focus to children.
pub mod geometry;
pub mod context;
pub mod limits;
pub mod distribute;
pub mod tile;
pub mod grid;
pub mod proxy;
pub mod composite;
pub mod input;
pub mod widgets;
pub mod macos_keys;
pub mod windows_keys;
pub mod font;
pub mod payload;
pub mod menu;
pub mod list;
pub mod text_style;
pub mod host;
pub mod tree;
