//! The name of the file that a document is written to.

use vstd::prelude::*;
use vstd::string::*;

verus! {

/// How many characters the extension of an input file takes, dot included.
pub const INPUT_EXTENSION_LEN: usize = 3;

/// What the name of an output file ends in.
pub const OUTPUT_EXTENSION: &'static str = ".html";

/// The name of the output file for an input file: the input's name without
/// its last three characters, followed by `.html`.
pub open spec fn output_name(input: Seq<char>) -> Seq<char>
    recommends
        input.len() >= INPUT_EXTENSION_LEN,
{
    input.subrange(0, input.len() - INPUT_EXTENSION_LEN) + OUTPUT_EXTENSION@
}

/// Derives the name of the output file from the name of the input file.
///
/// The last three characters of the input's name are taken for its extension,
/// whatever they are, so the name must have at least three.
pub fn output_filename(input: &str) -> (output: String)
    requires
        input@.len() >= INPUT_EXTENSION_LEN,
    ensures
        output@ == output_name(input@),
{
    let len: usize = input.unicode_len();
    let mut output = String::from_str(input.substring_char(0, len - INPUT_EXTENSION_LEN));
    output.append(OUTPUT_EXTENSION);
    output
}

} // verus!
