//! A namespace-scoped extension-element handler for a syndication-feed
//! parser: given one XML element of the arXiv vocabulary and the feed entry
//! being built, it extracts recognized sub-elements and attributes and writes
//! normalized values onto the entry, ignoring malformed or unknown markup
//! rather than aborting the parse.

pub mod model;
pub mod parser;
pub mod xml;
