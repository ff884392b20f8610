//! The lines that the program introduces itself with.

use vstd::prelude::*;
use vstd::string::*;

verus! {

/// What a package says of itself.
#[derive(Debug)]
pub struct Package {
    /// Its name.
    pub name: String,
    /// Its version, without a leading `v`.
    pub version: String,
    /// One line on what it does.
    pub description: String,
    /// Who wrote it.
    pub authors: String,
    /// Where it lives on the web.
    pub homepage: String,
}

/// The title line: name, version in brackets, description.
pub open spec fn title_text(package: Package) -> Seq<char> {
    package.name@ + " (v"@ + package.version@ + "), "@ + package.description@
}

/// The lines under the title: who wrote the program, where it lives, and how
/// it is called.
pub open spec fn attribution_text(package: Package) -> Seq<char> {
    "Written by: "@ + package.authors@ + "\nHomepage: "@ + package.homepage@
        + "\nUsage: tinymd <somefile.md>"@
}

/// The whole banner: the title on a line of its own, then the attribution.
pub open spec fn usage_text(package: Package) -> Seq<char> {
    title_text(package) + "\n"@ + attribution_text(package)
}

/// The title line of the package.
pub fn get_title(package: &Package) -> (title: String)
    ensures
        title@ == title_text(*package),
{
    let mut title = String::from_str(package.name.as_str());
    title.append(" (v");
    title.append(package.version.as_str());
    title.append("), ");
    title.append(package.description.as_str());
    title
}

/// The banner that tells how the program is used: the title line, who wrote
/// it, its homepage and an example call. It ends without a line break.
pub fn usage(package: &Package) -> (text: String)
    ensures
        text@ == usage_text(*package),
{
    let mut text = get_title(package);
    text.append("\n");
    text.append("Written by: ");
    text.append(package.authors.as_str());
    text.append("\nHomepage: ");
    text.append(package.homepage.as_str());
    text.append("\nUsage: tinymd <somefile.md>");
    proof {
        assert(text@ =~= usage_text(*package));
    }
    text
}

} // verus!
