use tinymd::naming::output_filename;

#[test]
fn markdown_extension_becomes_html() {
    assert_eq!(output_filename("notes.md"), "notes.html");
}

#[test]
fn directories_in_the_name_are_kept() {
    assert_eq!(output_filename("docs/2024/readme.md"), "docs/2024/readme.html");
}

#[test]
fn three_characters_are_cut_whatever_they_are() {
    assert_eq!(output_filename("page.txt"), "page..html");
    assert_eq!(output_filename("abcdef"), "abc.html");
}

#[test]
fn name_of_three_characters_leaves_the_extension_alone() {
    assert_eq!(output_filename(".md"), ".html");
    assert_eq!(output_filename("abc"), ".html");
}

#[test]
fn characters_outside_ascii_count_as_one_each() {
    assert_eq!(output_filename("caf\u{e9}.md"), "caf\u{e9}.html");
    assert_eq!(output_filename("a\u{e9}\u{e9}\u{e9}"), "a.html");
}
