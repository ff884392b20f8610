use tinymd::banner::{get_title, usage, Package};

fn sample() -> Package {
    Package {
        name: String::from("tinymd"),
        version: String::from("0.1.0"),
        description: String::from("A tiny markdown compiler"),
        authors: String::from("Ada Writer <ada@example.org>"),
        homepage: String::from("https://example.org/tinymd"),
    }
}

fn blank() -> Package {
    Package {
        name: String::new(),
        version: String::new(),
        description: String::new(),
        authors: String::new(),
        homepage: String::new(),
    }
}

#[test]
fn title_holds_name_version_and_description() {
    assert_eq!(get_title(&sample()), "tinymd (v0.1.0), A tiny markdown compiler");
}

#[test]
fn title_of_a_blank_package_is_the_punctuation_alone() {
    assert_eq!(get_title(&blank()), " (v), ");
}

#[test]
fn usage_starts_with_the_title_on_its_own_line() {
    let package = sample();
    let text = usage(&package);
    let title = get_title(&package);
    assert!(text.starts_with(&format!("{}\n", title)));
}

#[test]
fn usage_names_author_homepage_and_the_call() {
    assert_eq!(
        usage(&sample()),
        "tinymd (v0.1.0), A tiny markdown compiler\n\
         Written by: Ada Writer <ada@example.org>\n\
         Homepage: https://example.org/tinymd\n\
         Usage: tinymd <somefile.md>"
    );
}

#[test]
fn usage_of_a_blank_package_keeps_its_labels() {
    assert_eq!(usage(&blank()), " (v), \nWritten by: \nHomepage: \nUsage: tinymd <somefile.md>");
}
