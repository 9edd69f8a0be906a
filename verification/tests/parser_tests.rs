use flatten::parser::discover_links;
use flatten::parser::DiscoveryError;

fn cv(s: &str) -> Vec<char> {
    s.chars().collect()
}

fn skips(entries: &[&str]) -> Vec<Vec<char>> {
    entries.iter().map(|s| cv(s)).collect()
}

#[test]
fn single_link_discovered() {
    let text = cv("Directory of C:\\A\\\n<SYMLINK> foo.txt [\\\\server\\foo.txt]\n");
    let d = discover_links(&text, &skips(&[])).unwrap();
    assert_eq!(d.dirs_visited, 1);
    assert_eq!(d.links.len(), 1);
    assert_eq!(d.links[0], cv("C:\\A\\foo.txt"));
}

#[test]
fn skip_entry_excludes_directory() {
    let text = cv("Directory of C:\\A\\\n<SYMLINK> foo.txt [\\\\server\\foo.txt]\n");
    let d = discover_links(&text, &skips(&["A"])).unwrap();
    assert_eq!(d.dirs_visited, 1);
    assert_eq!(d.links.len(), 0);
}

#[test]
fn directory_count_ignores_link_lines() {
    let text = cv(
        "Directory of C:\\one\n<SYMLINK> a.txt [\\\\srv\\a.txt]\nsome noise\nDirectory of C:\\two\nDirectory of C:\\three\n<SYMLINK> b.txt [\\\\srv\\b.txt]\n",
    );
    let d = discover_links(&text, &skips(&[])).unwrap();
    assert_eq!(d.dirs_visited, 3);
    assert_eq!(d.links.len(), 2);
}

#[test]
fn empty_input_is_empty_discovery() {
    let text = cv("");
    let d = discover_links(&text, &skips(&[])).unwrap();
    assert_eq!(d.dirs_visited, 0);
    assert_eq!(d.links.len(), 0);
}

#[test]
fn link_before_any_directory_is_an_error() {
    let text = cv("<SYMLINK> stray.txt [\\\\srv\\stray.txt]\nDirectory of C:\\A\\\n");
    let e = discover_links(&text, &skips(&[])).unwrap_err();
    assert_eq!(e, DiscoveryError::LinkBeforeDirectory);
}

#[test]
fn separator_added_when_header_lacks_one() {
    let text = cv("Directory of C:\\B\n<SYMLINK> x.bin [\\\\srv\\x.bin]\n");
    let d = discover_links(&text, &skips(&[])).unwrap();
    assert_eq!(d.links[0], cv("C:\\B\\x.bin"));
}

#[test]
fn name_is_trimmed_and_annotation_stripped() {
    let text = cv("Directory of C:\\A\\\n<SYMLINK>     spaced.txt [\\\\server\\s\\spaced.txt]\n");
    let d = discover_links(&text, &skips(&[])).unwrap();
    assert_eq!(d.links[0], cv("C:\\A\\spaced.txt"));
}

#[test]
fn name_without_annotation_is_kept_whole() {
    let text = cv("Directory of C:\\A\\\n<SYMLINK> plain.txt\n");
    let d = discover_links(&text, &skips(&[])).unwrap();
    assert_eq!(d.links[0], cv("C:\\A\\plain.txt"));
}

#[test]
fn skip_matches_partial_directory_name() {
    let text = cv(
        "Directory of C:\\Prod\\\n<SYMLINK> a.txt [\\\\srv\\a.txt]\nDirectory of C:\\Dev\\\n<SYMLINK> b.txt [\\\\srv\\b.txt]\n",
    );
    let d = discover_links(&text, &skips(&["rod"])).unwrap();
    assert_eq!(d.dirs_visited, 2);
    assert_eq!(d.links.len(), 1);
    assert_eq!(d.links[0], cv("C:\\Dev\\b.txt"));
}

#[test]
fn crlf_lines_are_handled() {
    let text = cv("Directory of C:\\A\\\r\n<SYMLINK> foo.txt [\\\\server\\foo.txt]\r\n");
    let d = discover_links(&text, &skips(&[])).unwrap();
    assert_eq!(d.dirs_visited, 1);
    assert_eq!(d.links[0], cv("C:\\A\\foo.txt"));
}

#[test]
fn later_header_resets_skip_state() {
    let text = cv(
        "Directory of C:\\skipme\\\n<SYMLINK> a.txt [\\\\srv\\a.txt]\nDirectory of C:\\keep\\\n<SYMLINK> b.txt [\\\\srv\\b.txt]\n",
    );
    let d = discover_links(&text, &skips(&["skipme"])).unwrap();
    assert_eq!(d.links.len(), 1);
    assert_eq!(d.links[0], cv("C:\\keep\\b.txt"));
}

#[test]
fn lines_without_markers_are_ignored(){
    let text = cv(
        " Volume in drive C is OS\n Volume Serial Number is 1234-ABCD\n\nDirectory of C:\\A\\\n01/01/2024  10:00 AM    <DIR>          .\n<SYMLINK> foo.txt [\\\\server\\foo.txt]\n",
    );
    let d = discover_links(&text, &skips(&[])).unwrap();
    assert_eq!(d.dirs_visited, 1);
    assert_eq!(d.links.len(), 1);
    assert_eq!(d.links[0], cv("C:\\A\\foo.txt"));
}
