use lsr::formatter::{add_color, decorate, format_list};
use lsr::lister::{FileType, PathInfo};

fn entry(name: &str, file_type: FileType) -> PathInfo {
    PathInfo { name: String::from(name), file_type }
}

#[test]
fn format_is_length_and_order_preserving() {
    colored::control::set_override(false);
    let out = format_list(vec![
        entry("a.txt", FileType::FILE),
        entry("sub", FileType::DIRECTORY),
        entry("odd", FileType::OTHER),
    ]);
    assert_eq!(out.len(), 3);
    assert!(out[0].starts_with("📄 "));
    assert!(out[1].starts_with("📁 "));
    assert_eq!(out[2], "odd");
}

#[test]
fn file_line_is_icon_then_name() {
    colored::control::set_override(false);
    let out = format_list(vec![entry("readme.txt", FileType::FILE)]);
    assert_eq!(out, vec![String::from("📄 readme.txt")]);
}

#[test]
fn directory_line_is_icon_then_name() {
    colored::control::set_override(false);
    let out = format_list(vec![entry("sub", FileType::DIRECTORY)]);
    assert_eq!(out, vec![String::from("📁 sub")]);
}

#[test]
fn symlink_line_is_icon_then_name() {
    colored::control::set_override(false);
    let out = format_list(vec![entry("link", FileType::SYMLINK)]);
    assert_eq!(out, vec![String::from("🔗 link")]);
}

#[test]
fn hidden_line_is_icon_then_name() {
    colored::control::set_override(false);
    let out = format_list(vec![entry("x./.y", FileType::HIDDEN)]);
    assert_eq!(out, vec![String::from("🫣 x./.y")]);
}

#[test]
fn other_passes_through_unstyled() {
    colored::control::set_override(true);
    let out = format_list(vec![entry("plain", FileType::OTHER)]);
    colored::control::unset_override();
    assert_eq!(out, vec![String::from("plain")]);
}

#[test]
fn leading_dot_slash_is_trimmed_repeatedly() {
    colored::control::set_override(false);
    let out = format_list(vec![
        entry("./a.txt", FileType::FILE),
        entry("././b.txt", FileType::FILE),
        entry("./c", FileType::OTHER),
        entry("a./", FileType::OTHER),
    ]);
    assert_eq!(
        out,
        vec![
            String::from("📄 a.txt"),
            String::from("📄 b.txt"),
            String::from("c"),
            String::from("a./"),
        ]
    );
}

#[test]
fn styling_is_applied_when_color_is_forced() {
    colored::control::set_override(true);
    let line = add_color(String::from("styled"), entry("styled", FileType::DIRECTORY));
    colored::control::unset_override();
    assert!(line.starts_with("📁 "));
    assert!(line.contains('\u{1b}'));
    assert!(line.contains("styled"));
}

#[test]
fn decorate_prepends_exactly_the_icon() {
    assert_eq!(decorate(String::from("x"), FileType::DIRECTORY), "📁 x");
    assert_eq!(decorate(String::from("x"), FileType::FILE), "📄 x");
    assert_eq!(decorate(String::from("x"), FileType::SYMLINK), "🔗 x");
    assert_eq!(decorate(String::from("x"), FileType::HIDDEN), "🫣 x");
    assert_eq!(decorate(String::from("x"), FileType::OTHER), "x");
}

#[test]
fn add_color_keeps_other_unchanged() {
    let line = add_color(String::from("as-is"), entry("as-is", FileType::OTHER));
    assert_eq!(line, "as-is");
}
