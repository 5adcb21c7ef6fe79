//! Composition and rendering of per-device screens for small e-ink clients.

pub mod bitmap;
pub mod device;
pub mod error;
pub mod generator;
pub mod net;
pub mod plugins;
pub mod render;
pub mod resource;
pub mod serve;
pub mod storage;
pub mod text;
