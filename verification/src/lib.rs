//! Verified core of the unifly terminal client.

pub mod text;
pub mod style;
pub mod firewall;
pub mod render_caps;
pub mod scheduler;
pub mod chart_cache;
pub mod events;
pub mod heatmap;
pub mod chart_model;
pub mod subcell;
pub mod faceplate;
pub mod color;
pub mod json;
pub mod session;
pub mod vpn_render;
pub mod graphics;
pub mod series;
pub mod stats;
