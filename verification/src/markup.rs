//! The pieces of markup that the transducer emits.

use vstd::prelude::*;

verus! {

/// The character that marks a line as a heading.
pub const HEADING_MARKER: char = '#';

/// How many leading characters of a heading line are not part of its body:
/// the marker and the character after it, by convention a space.
pub const HEADING_PREFIX_LEN: usize = 2;

/// Opens a paragraph. The line break comes before the tag.
pub const PARAGRAPH_OPEN: &'static str = "\n<p>";

/// Closes a paragraph at the end of a line. The line break comes after the
/// tag.
pub const PARAGRAPH_CLOSE: &'static str = "</p>\n";

/// Closes a paragraph that a heading cuts short: the tag alone.
pub const PARAGRAPH_END_TAG: &'static str = "</p>";

/// Opens a heading. The line break comes before the tag.
pub const HEADING_OPEN: &'static str = "\n<h1>";

/// Closes a heading at the end of a line. The line break comes after the
/// tag.
pub const HEADING_CLOSE: &'static str = "</h1>\n";

/// Closes a heading that another heading cuts short: the tag alone.
pub const HEADING_END_TAG: &'static str = "</h1>";

/// An empty paragraph with no line break after it: the one fragment that a
/// document leaves out.
pub const BLANK_PARAGRAPH: &'static str = "\n<p></p>";

} // verus!
