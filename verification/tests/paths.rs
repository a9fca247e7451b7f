use next_dynamic::paths::{rel_filename, relative_or_full, FileName};

fn s(text: &str) -> String {
    text.to_string()
}

#[test]
fn without_base_the_file_is_shown_as_given() {
    assert_eq!(rel_filename(&None, &FileName::Real(s("/a/b/c.js"))), "/a/b/c.js");
    assert_eq!(rel_filename(&None, &FileName::Other(s("<anon>"))), "<anon>");
}

#[test]
fn a_name_that_is_no_path_is_shown_as_given() {
    assert_eq!(rel_filename(&Some(s("/a")), &FileName::Other(s("<anon>"))), "<anon>");
}

#[test]
fn a_path_below_the_base_is_shown_relative() {
    assert_eq!(rel_filename(&Some(s("/a")), &FileName::Real(s("/a/b/c.js"))), "b/c.js");
}

#[test]
fn a_path_beside_the_base_climbs() {
    assert_eq!(rel_filename(&Some(s("/a/pages")), &FileName::Real(s("/a/src/c.js"))), "../src/c.js");
}

#[test]
fn a_path_without_relative_form_is_shown_in_full() {
    assert_eq!(rel_filename(&Some(s("/a")), &FileName::Real(s("b/c.js"))), "b/c.js");
}

#[test]
fn relative_path_is_preferred_where_there_is_one() {
    assert_eq!(relative_or_full(&s("/a/b"), Some(s("b"))), "b");
    assert_eq!(relative_or_full(&s("/a/b"), None), "/a/b");
}
