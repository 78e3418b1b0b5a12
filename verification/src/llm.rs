//! Content exchanged with the language model.
use vstd::prelude::*;

verus! {

/// Where an image's data comes from.
#[derive(Debug, Clone)]
pub enum ImageSource {
    /// Base64-encoded data with its media type
    Base64 { media_type: String, data: String },
}

/// One piece of content of a message.
#[derive(Debug, Clone)]
pub enum Content {
    /// Plain text
    Text { text: String },
    /// An image
    Image { source: ImageSource },
}

} // verus!
