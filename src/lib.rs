//! Backend logic of a desktop image-comparison tool: classifying image paths,
//! walking a folder for images, building file metadata and encoding file
//! contents for transport to a front-end.
pub mod classify;
pub mod error;
pub mod metadata;
pub mod transport;
pub mod scan;
