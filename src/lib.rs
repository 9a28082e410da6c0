//! Driver logic for ST7789 display controllers speaking the MIPI Display
//! Command Set (DCS): command encoding, the initialization sequence as a state
//! machine, and the pixel payloads of a streaming and a framebuffer-backed
//! controller model.
pub mod color;
pub mod dcs;
pub mod error;
pub mod init;
pub mod models;
pub mod options;
