//! Core of a small single-page application shell: the route table and its
//! path matching, the theme that styles the themed button, the navigation
//! bar's items and their class strings, and the state advanced by the
//! shader canvas's animation-frame loop.
//!
//! Everything here is plain data and string or integer computation; the
//! browser glue (DOM, rendering, graphics calls) lives outside and feeds
//! these functions plain values.

pub mod nav;
pub mod render;
pub mod routes;
pub mod theme;
