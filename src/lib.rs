//! EXIF tag classification, value formatting, extraction and outcome
//! classification for a photo viewer's metadata panel.
pub mod text;
pub mod catalog;
pub mod model;
pub mod format;
pub mod service;
pub mod scan;
pub mod photo;
pub mod export;
pub mod files;
