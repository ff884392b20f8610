//! A whole document: the pass over its lines, the filter on the fragments,
//! and the text that their concatenation gives.

use vstd::prelude::*;
use vstd::string::*;
use crate::markup::{
    BLANK_PARAGRAPH, HEADING_CLOSE, HEADING_OPEN, PARAGRAPH_CLOSE, PARAGRAPH_OPEN,
};
use crate::transducer::{
    fragment_of, heading_body, is_heading, is_short_heading, transduce, TransduceError,
    TransducerState,
};

verus! {

/// A line of a document that could not be transduced.
#[derive(Clone, Copy, Debug, PartialEq, Eq, Structural)]
pub struct LineError {
    /// The position of the line among the lines of the document, from zero.
    pub index: usize,
    /// What was wrong with it.
    pub error: TransduceError,
}

/// A fragment goes into the document unless it is, character for character,
/// the blank paragraph.
pub open spec fn is_kept(fragment: Seq<char>) -> bool {
    fragment != BLANK_PARAGRAPH@
}

/// The fragment of a line that is read with no tag open, as every line of a
/// document is: a heading's body between the heading tags, or the whole line
/// between the paragraph tags.
pub open spec fn line_fragment(line: Seq<char>) -> Seq<char> {
    if is_heading(line) {
        HEADING_OPEN@ + heading_body(line) + HEADING_CLOSE@
    } else {
        PARAGRAPH_OPEN@ + line + PARAGRAPH_CLOSE@
    }
}

/// The fragments of a document, in the order of its lines: the fragment of
/// each line, without those that the filter leaves out.
pub open spec fn fragments_of(lines: Seq<Seq<char>>) -> Seq<Seq<char>> {
    lines.map_values(|line: Seq<char>| line_fragment(line)).filter(
        |fragment: Seq<char>| is_kept(fragment),
    )
}

/// The text of a document: its fragments, one after the other.
pub open spec fn document_text(lines: Seq<Seq<char>>) -> Seq<char> {
    fragments_of(lines).flatten()
}

/// No line of the document is a heading too short to have a body.
pub open spec fn all_lines_transducible(lines: Seq<Seq<char>>) -> bool {
    forall|i: int| 0 <= i < lines.len() ==> !is_short_heading(#[trigger] lines[i])
}

/// What a failed pass reports: the first line that cannot be transduced, and
/// why.
pub open spec fn fails_at(lines: Seq<Seq<char>>, failure: LineError) -> bool {
    &&& failure.index < lines.len()
    &&& is_short_heading(lines[failure.index as int])
    &&& all_lines_transducible(lines.take(failure.index as int))
    &&& failure.error == TransduceError::HeadingTooShort
}

/// Whether a fragment goes into the document.
///
/// The test is on the exact text of the blank paragraph and on nothing else.
/// An empty line gives an empty paragraph that ends in a line break, which is
/// another text, so empty lines stay in the document as empty paragraphs; see
/// [`lemma_every_fragment_is_kept`].
pub fn keep_fragment(fragment: &String) -> (keep: bool)
    ensures
        keep == is_kept(fragment@),
{
    let blank = String::from_str(BLANK_PARAGRAPH);
    *fragment != blank
}

/// Transduces the lines of a document, first to last, and collects the
/// fragments that the filter keeps.
///
/// The pass fails at the first line that cannot be transduced, and then gives
/// no fragments at all.
pub fn transduce_lines(lines: &Vec<String>) -> (result: Result<Vec<String>, LineError>)
    ensures
        result is Ok <==> all_lines_transducible(lines.deep_view()),
        result matches Ok(fragments) ==> fragments.deep_view() == fragments_of(lines.deep_view()),
        result matches Err(failure) ==> fails_at(lines.deep_view(), failure),
{
    let mut state = TransducerState::new();
    let mut fragments: Vec<String> = Vec::new();
    let mut i: usize = 0;
    proof {
        assert(lines.deep_view().take(0) =~= Seq::<Seq<char>>::empty());
        assert(fragments_of(Seq::empty()) =~= Seq::<Seq<char>>::empty()) by {
            reveal(Seq::filter);
        }
    }
    while i < lines.len()
        invariant
            i <= lines.len(),
            state.is_closed(),
            all_lines_transducible(lines.deep_view().take(i as int)),
            fragments.deep_view() == fragments_of(lines.deep_view().take(i as int)),
        decreases lines.len() - i,
    {
        let ghost earlier = lines.deep_view().take(i as int);
        let ghost collected = fragments.deep_view();
        proof {
            assert(lines.deep_view().take(i + 1) =~= earlier.push(lines[i as int]@));
            lemma_fragments_of_push(earlier, lines[i as int]@);
            lemma_fragment_with_no_tag_open(lines[i as int]@, state);
        }
        match transduce(lines[i].as_str(), &mut state) {
            Ok(fragment) => {
                if keep_fragment(&fragment) {
                    fragments.push(fragment);
                    assert(fragments.deep_view() =~= collected.push(fragment@));
                }
            },
            Err(error) => {
                assert(is_short_heading(lines.deep_view()[i as int]));
                return Err(LineError { index: i, error });
            },
        }
        i += 1;
    }
    assert(lines.deep_view().take(i as int) =~= lines.deep_view());
    Ok(fragments)
}

/// Joins the fragments into one text, in their order.
pub fn concat_fragments(fragments: &Vec<String>) -> (text: String)
    ensures
        text@ == fragments.deep_view().flatten(),
{
    let mut text = String::new();
    let mut i: usize = 0;
    proof {
        assert(fragments.deep_view().take(0) =~= Seq::<Seq<char>>::empty());
    }
    while i < fragments.len()
        invariant
            i <= fragments.len(),
            text@ == fragments.deep_view().take(i as int).flatten(),
        decreases fragments.len() - i,
    {
        proof {
            let earlier = fragments.deep_view().take(i as int);
            assert(fragments.deep_view().take(i + 1) =~= earlier.push(fragments[i as int]@));
            earlier.lemma_flatten_push(fragments[i as int]@);
        }
        text.append(fragments[i].as_str());
        i += 1;
    }
    assert(fragments.deep_view().take(i as int) =~= fragments.deep_view());
    text
}

/// Transduces a whole document: the text that its lines give, or the first
/// line that cannot be transduced.
pub fn transduce_document(lines: &Vec<String>) -> (result: Result<String, LineError>)
    ensures
        result is Ok <==> all_lines_transducible(lines.deep_view()),
        result matches Ok(text) ==> text@ == document_text(lines.deep_view()),
        result matches Err(failure) ==> fails_at(lines.deep_view(), failure),
{
    match transduce_lines(lines) {
        Ok(fragments) => Ok(concat_fragments(&fragments)),
        Err(failure) => Err(failure),
    }
}

/// Read with no tag open, a line gives its heading or its paragraph and
/// nothing before or after it.
pub proof fn lemma_fragment_with_no_tag_open(line: Seq<char>, state: TransducerState)
    requires
        state.is_closed(),
    ensures
        fragment_of(line, state) == line_fragment(line),
{
    assert(fragment_of(line, state) =~= line_fragment(line));
}

/// The filter keeps every fragment that the transducer can produce, whatever
/// the line and whatever tags were open: a fragment ends in the line break of
/// a closing tag, and the blank paragraph does not.
pub proof fn lemma_every_fragment_is_kept(line: Seq<char>, state: TransducerState)
    ensures
        is_kept(fragment_of(line, state)),
{
    reveal_strlit("</p>\n");
    reveal_strlit("</h1>\n");
    reveal_strlit("\n<p></p>");
    let fragment = fragment_of(line, state);
    assert(fragment.len() > 0 && fragment.last() == '\n');
    assert(BLANK_PARAGRAPH@.last() == '>');
}

/// A document has one fragment for each of its lines, in their order: the
/// filter drops none of them.
pub proof fn lemma_one_fragment_per_line(lines: Seq<Seq<char>>)
    ensures
        fragments_of(lines).len() == lines.len(),
        forall|i: int| 0 <= i < lines.len() ==> fragments_of(lines)[i] == line_fragment(lines[i]),
    decreases lines.len(),
{
    if lines.len() == 0 {
        reveal(Seq::filter);
    } else {
        let earlier = lines.drop_last();
        let line = lines.last();
        lemma_one_fragment_per_line(earlier);
        assert(lines =~= earlier.push(line));
        lemma_fragments_of_push(earlier, line);
        lemma_fragment_with_no_tag_open(line, TransducerState::closed());
        lemma_every_fragment_is_kept(line, TransducerState::closed());
    }
}

/// Taking one more line into account adds its fragment, if the filter keeps
/// it, and nothing else.
proof fn lemma_fragments_of_push(lines: Seq<Seq<char>>, line: Seq<char>)
    ensures
        fragments_of(lines.push(line)) == if is_kept(line_fragment(line)) {
            fragments_of(lines).push(line_fragment(line))
        } else {
            fragments_of(lines)
        },
{
    let to_fragment = |line: Seq<char>| line_fragment(line);
    let kept = |fragment: Seq<char>| is_kept(fragment);
    assert(lines.push(line).map_values(to_fragment) =~= lines.map_values(to_fragment).push(
        line_fragment(line),
    ));
    lines.map_values(to_fragment).lemma_filter_push(line_fragment(line), kept);
}

} // verus!
