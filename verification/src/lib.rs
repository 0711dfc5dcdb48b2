//! Uploading images to a GitHub repository through the contents API: the
//! rules of the tool, from the configuration to the printed line, with the
//! network and the file system left to the caller.
//!
//! A run goes through [`run::Uploader`]: it hands out, image by image, the
//! request to send and the address to send it to, and makes of each answer
//! the line to print or the error that ends the run.

pub mod client;
pub mod config;
pub mod error;
pub mod json;
pub mod path;
pub mod run;
pub mod text;
pub mod upload;
pub mod url;
