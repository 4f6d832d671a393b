//! Turns captured photo pages and image payloads of a web archive into
//! training examples that pair an image with the metadata of its page.
//!
//! The records of an archive are handled one by one, in order, by
//! [`driver::parse_record`]. The record of a photo page leaves the metadata
//! of its image in a [`store::CorrelationStore`]; the record of the image,
//! which comes later, takes the metadata out and becomes an
//! [`metadata::ImageExample`]. Reading the archive and writing the examples
//! out is left to the caller.

/// Pairs metadata with an image and the dimensions it decodes to.
pub mod assemble;
/// Tells the address of an original image from that of a resized variant.
pub mod canonical;
/// Cleans titles, descriptions and counts.
pub mod cleaning;
/// Handles the records of an archive one by one.
pub mod driver;
/// Finds the payload behind the HTTP envelope of a record.
pub mod envelope;
/// Metadata, examples and the features an example is written out as.
pub mod metadata;
/// Reads the metadata of an image off its photo page.
pub mod page;
/// Keeps metadata until its image arrives.
pub mod store;
/// Searching, removing, trimming and reading numbers in sequences of characters.
pub mod text;
