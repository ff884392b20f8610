//! A line-by-line transducer from a small subset of markdown to HTML.
//!
//! A line that starts with `#` becomes a first-level heading; every other
//! line, the empty one included, becomes a paragraph. Each line is turned into
//! one self-contained fragment of markup, and a document is the concatenation
//! of the fragments of its lines.

pub mod markup;
pub mod transducer;
pub mod document;
pub mod naming;
pub mod banner;
