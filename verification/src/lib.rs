//! Planning and decision logic for classifying one image with an exported
//! classification model: the shapes and scale of the preprocessing step, the
//! order of the stages and how a failure ends them, and the reduction of the
//! model's class scores to one predicted class.
//!
//! The numerical runtime, the image codecs and the file system stay outside:
//! a driver performs each action this library asks for and reports back what
//! happened.

pub mod config;
pub mod error;
pub mod pipeline;
pub mod preprocess;
pub mod score;
