//! Extraction of a single quiz item record from a fetched HTML page: the
//! page is parsed leniently, the first element carrying the item marker is
//! located, its subtree is walked in document order, relative references are
//! resolved against the page's URL, and the result is assembled into one
//! title and one text accumulation, then formatted as a structured
//! notification payload.

pub mod dom;
pub mod html;
pub mod locate;
pub mod extract;
pub mod payload;
pub mod resolve;
