//! Turns request parameters into a QR code, rendered as SVG markup or as a
//! grayscale raster for PNG output.

pub mod codec;
pub mod request;
pub mod symbol;

pub use request::{default_ec, Error, Format, Request, Response};
pub use symbol::{Code, EcLevel, GrayImage};
