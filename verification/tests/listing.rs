use lsr::lister::{FileType, Lister, PathInfo, RawEntry, TypeQuery};

fn raw(path_text: &str, query: TypeQuery) -> RawEntry {
    RawEntry { path_text: String::from(path_text), query }
}

fn fixture() -> Vec<RawEntry> {
    vec![
        raw("./sub", TypeQuery::Directory),
        raw("./note.txt", TypeQuery::RegularFile),
    ]
}

#[test]
fn default_config_fields() {
    let l = Lister::default();
    assert_eq!(l.path, ".");
    assert!(!l.with_dir);
    assert!(l.with_file);
    assert!(!l.with_hidden);
    assert!(!l.with_symlink);
}

#[test]
fn builders_replace_one_field_each() {
    let l = Lister::default()
        .with_dir(true)
        .with_hidden(true)
        .with_symlink(true)
        .with_file(false)
        .with_path(String::from("somewhere"));
    assert_eq!(l.path, "somewhere");
    assert!(l.with_dir);
    assert!(!l.with_file);
    assert!(l.with_hidden);
    assert!(l.with_symlink);
}

#[test]
fn builders_do_not_touch_their_receiver() {
    let base = Lister::default();
    let _changed = base.with_dir(true);
    assert!(!base.with_dir);
    assert_eq!(base.path, ".");
}

#[test]
fn scan_default_yields_only_the_file() {
    let list = Lister::default().get_list(fixture());
    assert_eq!(
        list,
        vec![PathInfo { name: String::from("note.txt"), file_type: FileType::FILE }]
    );
}

#[test]
fn scan_with_directories_adds_the_subdir() {
    let list = Lister::default().with_dir(true).get_list(fixture());
    assert_eq!(
        list,
        vec![
            PathInfo { name: String::from("sub"), file_type: FileType::DIRECTORY },
            PathInfo { name: String::from("note.txt"), file_type: FileType::FILE },
        ]
    );
}

#[test]
fn scan_without_files_drops_the_file() {
    let list = Lister::default().with_dir(true).with_file(false).get_list(fixture());
    assert_eq!(
        list,
        vec![PathInfo { name: String::from("sub"), file_type: FileType::DIRECTORY }]
    );
}

#[test]
fn hidden_marker_anywhere_classifies_hidden() {
    let l = Lister::default().with_path(String::from("p")).with_hidden(true);
    let list = l.get_list(vec![
        raw("p/x./.y", TypeQuery::RegularFile),
        raw("p/plain.txt", TypeQuery::RegularFile),
    ]);
    assert_eq!(
        list,
        vec![
            PathInfo { name: String::from("x./.y"), file_type: FileType::HIDDEN },
            PathInfo { name: String::from("plain.txt"), file_type: FileType::FILE },
        ]
    );
}

#[test]
fn hidden_entry_needs_its_switch() {
    let l = Lister::default().with_path(String::from("p"));
    let list = l.get_list(vec![raw("p/x./.y", TypeQuery::RegularFile)]);
    assert!(list.is_empty());
}

#[test]
fn symlink_and_failed_queries() {
    let l = Lister::default()
        .with_path(String::from("p"))
        .with_symlink(true)
        .with_dir(true)
        .with_hidden(true);
    let list = l.get_list(vec![
        raw("p/link", TypeQuery::NeitherDirNorFile),
        raw("p/mystery", TypeQuery::Failed),
    ]);
    assert_eq!(
        list,
        vec![PathInfo { name: String::from("link"), file_type: FileType::SYMLINK }]
    );
}

#[test]
fn other_kind_is_never_included() {
    let l = Lister::default()
        .with_path(String::from("p"))
        .with_dir(true)
        .with_hidden(true)
        .with_symlink(true);
    let list = l.get_list(vec![raw("p/mystery", TypeQuery::Failed)]);
    assert!(list.is_empty());
}

#[test]
fn empty_name_is_never_included() {
    let l = Lister::default()
        .with_path(String::from("p"))
        .with_dir(true)
        .with_hidden(true)
        .with_symlink(true);
    let list = l.get_list(vec![
        raw("", TypeQuery::RegularFile),
        raw("p/", TypeQuery::Directory),
    ]);
    assert!(list.is_empty());
}

#[test]
fn scan_twice_yields_identical_sequences() {
    let l = Lister::default().with_dir(true).with_hidden(true).with_symlink(true);
    let first = l.get_list(fixture());
    let second = l.get_list(fixture());
    assert_eq!(first, second);
}

#[test]
fn scan_of_nothing_is_empty() {
    let list = Lister::default().get_list(vec![]);
    assert!(list.is_empty());
}

#[test]
fn prefix_removal_is_plain_substring_substitution() {
    let l = Lister::default().with_path(String::from("a"));
    let list = l.get_list(vec![raw("a/xa/y", TypeQuery::RegularFile)]);
    assert_eq!(
        list,
        vec![PathInfo { name: String::from("xy"), file_type: FileType::FILE }]
    );
}

#[test]
fn trailing_separator_is_not_doubled() {
    let l = Lister::default().with_path(String::from("dir/"));
    let list = l.get_list(vec![raw("dir/f", TypeQuery::RegularFile)]);
    assert_eq!(
        list,
        vec![PathInfo { name: String::from("f"), file_type: FileType::FILE }]
    );
}

#[test]
fn enumeration_order_is_preserved() {
    let l = Lister::default().with_path(String::from("p"));
    let list = l.get_list(vec![
        raw("p/zebra", TypeQuery::RegularFile),
        raw("p/apple", TypeQuery::RegularFile),
        raw("p/mango", TypeQuery::RegularFile),
    ]);
    let names: Vec<&str> = list.iter().map(|e| e.name.as_str()).collect();
    assert_eq!(names, vec!["zebra", "apple", "mango"]);
}

#[test]
fn classify_entry_covers_each_query() {
    assert_eq!(
        lsr::lister::classify_entry(&String::from("d"), TypeQuery::Directory),
        FileType::DIRECTORY
    );
    assert_eq!(
        lsr::lister::classify_entry(&String::from("f"), TypeQuery::RegularFile),
        FileType::FILE
    );
    assert_eq!(
        lsr::lister::classify_entry(&String::from("a./.b"), TypeQuery::RegularFile),
        FileType::HIDDEN
    );
    assert_eq!(
        lsr::lister::classify_entry(&String::from("l"), TypeQuery::NeitherDirNorFile),
        FileType::SYMLINK
    );
    assert_eq!(
        lsr::lister::classify_entry(&String::from("m"), TypeQuery::Failed),
        FileType::OTHER
    );
}
