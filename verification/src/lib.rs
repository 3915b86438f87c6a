//! Application lifecycle control: minimize, close, exit and a
//! foreground-state query, with a uniform result/error envelope and a
//! character-level wire codec for the records that cross the boundary.

pub mod decimal;
pub mod desktop;
pub mod error;
pub mod mobile;
pub mod models;
pub mod platform;
pub mod wire;

pub use error::{AppResult, Error};
pub use models::ExitOptions;
