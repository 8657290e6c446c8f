//! Verified core of a door camera: frame and WAL formats, recovery and
//! health policy, display pixel conversion, configuration checks.
pub mod analyzer;
pub mod camera;
pub mod camera_health;
pub mod capture;
pub mod config;
pub mod display;
pub mod display_integration;
pub mod encoder;
pub mod error;
pub mod error_text;
pub mod events;
pub mod frame;
pub mod health;
pub mod keyboard;
pub mod logging;
pub mod names;
pub mod orchestration;
pub mod pipeline;
pub mod opaque;
pub mod recovery;
pub mod text;
pub mod wal;
pub mod wal_export;
