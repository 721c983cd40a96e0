//! Assembles a batch of images, supplied as data-URI/base64-encoded
//! payloads, into a single multi-page PDF document, returned as a
//! base64-encoded byte buffer. Each successfully decoded image becomes
//! exactly one page, sized to the image's pixel dimensions at a fixed
//! assumed resolution of 300 pixels per inch; a failed image is skipped
//! with a diagnostic and never aborts the batch.

pub mod b64;
pub mod document;
pub mod payload;
pub mod pdf;
pub mod pipeline;
pub mod sizer;
