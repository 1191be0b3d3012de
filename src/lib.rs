//! License-plate localisation: image preprocessing for a fixed-size detection
//! model, input tensor construction, decoding of the model's raw outputs into a
//! single best bounding box, and cropping of that box out of the photograph.
//!
//! Model outputs and remote-service scores arrive as floating-point numbers;
//! this library holds them as fixed-point integers in millionths (see
//! [`fixed::FIXED_ONE`]), converted once at the boundary.
pub mod error;
pub mod fixed;
pub mod raster;
pub mod remote;
pub mod postprocess;
pub mod tensor;
