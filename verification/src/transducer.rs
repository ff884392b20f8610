//! The transducer: one input line and the carried state in, one fragment of
//! markup and the new state out.

use vstd::prelude::*;
use vstd::string::*;
use crate::markup::{
    HEADING_CLOSE, HEADING_END_TAG, HEADING_MARKER, HEADING_OPEN, HEADING_PREFIX_LEN,
    PARAGRAPH_CLOSE, PARAGRAPH_END_TAG, PARAGRAPH_OPEN,
};

verus! {

/// Which tags the transducer has written and not yet closed.
#[derive(Clone, Copy, Debug, PartialEq, Eq, Structural)]
pub struct TransducerState {
    /// A `<p>` is waiting for its `</p>`.
    pub paragraph_open: bool,
    /// An `<h1>` is waiting for its `</h1>`.
    pub heading_open: bool,
}

/// Why a line could not be transduced.
#[derive(Clone, Copy, Debug, PartialEq, Eq, Structural)]
pub enum TransduceError {
    /// The line starts with the heading marker and has no second character,
    /// so there is nothing to cut the heading's body from.
    HeadingTooShort,
}

impl TransduceError {
    /// The words that `message` gives for the error.
    pub open spec fn message_text(&self) -> Seq<char> {
        match *self {
            TransduceError::HeadingTooShort => "heading line is too short to have a body"@,
        }
    }

    /// What went wrong, in words.
    pub fn message(&self) -> (text: &'static str)
        ensures
            text@ == self.message_text(),
    {
        match self {
            TransduceError::HeadingTooShort => "heading line is too short to have a body",
        }
    }
}

/// A line is a heading when its first character is the marker.
pub open spec fn is_heading(line: Seq<char>) -> bool {
    line.len() > 0 && line[0] == HEADING_MARKER
}

/// A heading line that is too short to hold the marker's two characters.
pub open spec fn is_short_heading(line: Seq<char>) -> bool {
    is_heading(line) && line.len() < HEADING_PREFIX_LEN
}

/// The text of a heading: the line without its first two characters.
pub open spec fn heading_body(line: Seq<char>) -> Seq<char>
    recommends
        line.len() >= HEADING_PREFIX_LEN,
{
    line.subrange(HEADING_PREFIX_LEN as int, line.len() as int)
}

/// The end tags that a heading puts before itself when it starts in `state`:
/// the paragraph's first, then the heading's, each only if its tag is open,
/// and neither with a line break.
pub open spec fn end_tags(state: TransducerState) -> Seq<char> {
    (if state.paragraph_open { PARAGRAPH_END_TAG@ } else { Seq::<char>::empty() })
    + (if state.heading_open { HEADING_END_TAG@ } else { Seq::<char>::empty() })
}

/// The closing tags that the end of a line puts after it in `state`: the
/// paragraph's first, then the heading's, each only if its tag is open, and
/// each with its line break.
pub open spec fn closing_tags(state: TransducerState) -> Seq<char> {
    (if state.paragraph_open { PARAGRAPH_CLOSE@ } else { Seq::<char>::empty() })
    + (if state.heading_open { HEADING_CLOSE@ } else { Seq::<char>::empty() })
}

/// The fragment of a heading line that is read in `state`: whatever was still
/// open is ended, then the heading is opened, filled and closed.
pub open spec fn heading_fragment(line: Seq<char>, state: TransducerState) -> Seq<char>
    recommends
        line.len() >= HEADING_PREFIX_LEN,
{
    end_tags(state) + HEADING_OPEN@ + heading_body(line) + HEADING_CLOSE@
}

/// The fragment of a paragraph line that is read in `state`: the paragraph is
/// opened unless it already is, filled with the whole line and closed; a
/// heading that was still open is closed after it.
pub open spec fn paragraph_fragment(line: Seq<char>, state: TransducerState) -> Seq<char> {
    (if state.paragraph_open { Seq::<char>::empty() } else { PARAGRAPH_OPEN@ })
    + line
    + PARAGRAPH_CLOSE@
    + (if state.heading_open { HEADING_CLOSE@ } else { Seq::<char>::empty() })
}

/// The fragment of any line that is read in `state`.
pub open spec fn fragment_of(line: Seq<char>, state: TransducerState) -> Seq<char> {
    if is_heading(line) {
        heading_fragment(line, state)
    } else {
        paragraph_fragment(line, state)
    }
}

impl TransducerState {
    /// No tag is open.
    pub open spec fn is_closed(&self) -> bool {
        !self.paragraph_open && !self.heading_open
    }

    /// The one state in which no tag is open.
    pub open spec fn closed() -> TransducerState {
        TransducerState { paragraph_open: false, heading_open: false }
    }

    /// The state before the first line: no tag is open.
    pub fn new() -> (state: TransducerState)
        ensures
            state == TransducerState::closed(),
    {
        TransducerState { paragraph_open: false, heading_open: false }
    }
}

/// Ends the tags that are open in `state` so that a heading can start: writes
/// their end tags to the end of `out`, and leaves no tag open.
fn end_open_tags(state: &mut TransducerState, out: &mut String)
    ensures
        final(out)@ == old(out)@ + end_tags(*old(state)),
        final(state).is_closed(),
{
    if state.paragraph_open {
        state.paragraph_open = false;
        out.append(PARAGRAPH_END_TAG);
    }
    if state.heading_open {
        state.heading_open = false;
        out.append(HEADING_END_TAG);
    }
}

/// Closes the tags that are open in `state` at the end of a line: writes their
/// closing tags to the end of `out`, and leaves no tag open.
fn close_open_tags(state: &mut TransducerState, out: &mut String)
    ensures
        final(out)@ == old(out)@ + closing_tags(*old(state)),
        final(state).is_closed(),
{
    if state.paragraph_open {
        state.paragraph_open = false;
        out.append(PARAGRAPH_CLOSE);
    }
    if state.heading_open {
        state.heading_open = false;
        out.append(HEADING_CLOSE);
    }
}

/// Whether `line` starts with the heading marker.
pub fn starts_heading(line: &str) -> (heading: bool)
    ensures
        heading == is_heading(line@),
{
    !line.is_empty() && line.get_char(0) == HEADING_MARKER
}

/// Turns one line into its fragment of markup.
///
/// A heading line gives `"\n<h1>"`, the line without its first two
/// characters, and `"</h1>\n"`; any other line gives `"\n<p>"`, the line as it
/// is, and `"</p>\n"`. Tags that `state` reports as open on entry are closed
/// on the way: before a heading by their bare end tags, after a paragraph's
/// text by their closing tags, and an open paragraph is carried on rather than
/// opened again. None is left open on return, whatever the line was.
///
/// A heading line of the marker alone has no body to cut: it is refused with
/// [`TransduceError::HeadingTooShort`] and gives no fragment.
pub fn transduce(line: &str, state: &mut TransducerState) -> (result: Result<String, TransduceError>)
    ensures
        final(state).is_closed(),
        result is Err <==> is_short_heading(line@),
        result matches Err(error) ==> error == TransduceError::HeadingTooShort,
        result matches Ok(fragment) ==> fragment@ == fragment_of(line@, *old(state)),
        old(state).is_closed() && !is_heading(line@) ==> (result matches Ok(fragment)
            && fragment@ == PARAGRAPH_OPEN@ + line@ + PARAGRAPH_CLOSE@),
        old(state).is_closed() && is_heading(line@) && line@.len() >= HEADING_PREFIX_LEN
            ==> (result matches Ok(fragment)
            && fragment@ == HEADING_OPEN@ + heading_body(line@) + HEADING_CLOSE@),
{
    let mut fragment = String::new();
    if starts_heading(line) {
        let len: usize = line.unicode_len();
        if len < HEADING_PREFIX_LEN {
            *state = TransducerState::new();
            return Err(TransduceError::HeadingTooShort);
        }
        end_open_tags(state, &mut fragment);
        state.heading_open = true;
        fragment.append(HEADING_OPEN);
        fragment.append(line.substring_char(HEADING_PREFIX_LEN, len));
    } else {
        if !state.paragraph_open {
            state.paragraph_open = true;
            fragment.append(PARAGRAPH_OPEN);
        }
        fragment.append(line);
    }
    close_open_tags(state, &mut fragment);
    Ok(fragment)
}

} // verus!
