//! Name normalization and decoration: strip a leading `"./"`, then prefix an
//! icon and apply a per-kind terminal style through the `colored` crate.

use vstd::prelude::*;
use crate::lister::{FileType, PathInfo};
use crate::text::{trim_prefix_all, trim_prefix_repeated};

verus! {

#[verifier::external_type_specification]
#[verifier::external_body]
pub struct ExColoredString(colored::ColoredString);

/// Relies on colored's `Colorize::truecolor` for `&str`: pairs the text with
/// an RGB foreground color, to be rendered later.
#[verifier::external_body]
fn truecolor_str(s: &str, r: u8, g: u8, b: u8) -> colored::ColoredString {
    colored::Colorize::truecolor(s, r, g, b)
}

/// Relies on colored's `Colorize::bold` for `ColoredString`: adds the bold
/// style to the pending decoration.
#[verifier::external_body]
fn bold_styled(c: colored::ColoredString) -> colored::ColoredString {
    colored::Colorize::bold(c)
}

/// Relies on colored's `Colorize::italic` for `ColoredString`: adds the
/// italic style to the pending decoration.
#[verifier::external_body]
fn italic_styled(c: colored::ColoredString) -> colored::ColoredString {
    colored::Colorize::italic(c)
}

/// Relies on `ColoredString`'s `Display` impl, through `ToString`: renders
/// the text with ANSI escape sequences when the library decides the terminal
/// takes color, and as the plain text otherwise. That decision reads the
/// environment, so nothing is promised of the rendered characters.
#[verifier::external_body]
fn render_styled(c: &colored::ColoredString) -> String {
    c.to_string()
}

/// The icon-and-space prefix a formatted entry of kind `kind` begins with;
/// `OTHER` gets none.
pub open spec fn icon_seq(kind: FileType) -> Seq<char> {
    match kind {
        FileType::DIRECTORY => seq!['📁', ' '],
        FileType::FILE => seq!['📄', ' '],
        FileType::SYMLINK => seq!['🔗', ' '],
        FileType::HIDDEN => seq!['🫣', ' '],
        FileType::OTHER => Seq::empty(),
    }
}

/// What decorating `name` as kind `kind` promises of the output: for `OTHER`
/// the name passes through unchanged; for every other kind the output is the
/// kind's icon prefix followed by the styled name, whose exact characters
/// depend on the terminal settings.
pub open spec fn decorated_ok(name: Seq<char>, kind: FileType, out: Seq<char>) -> bool {
    if kind == FileType::OTHER {
        out == name
    } else {
        out.len() >= 2 && out.subrange(0, 2) == icon_seq(kind)
    }
}

/// The display name after the cosmetic normalization `format_list` applies:
/// every leading `"./"` stripped.
pub open spec fn spec_trimmed(name: Seq<char>) -> Seq<char> {
    trim_prefix_all(name, seq!['.', '/'])
}

/// Concatenate a kind's icon prefix and the styled text: exactly the icon
/// and a space, then `styled` unchanged; `OTHER` has no icon, so `styled`
/// passes through as it is.
pub fn decorate(styled: String, kind: FileType) -> (r: String)
    ensures
        r@ == icon_seq(kind) + styled@,
{
    match kind {
        FileType::DIRECTORY => {
            let mut string = String::from_str("📁 ");
            string.append(styled.as_str());
            proof {
                reveal_strlit("📁 ");
                assert(string@ =~= icon_seq(FileType::DIRECTORY) + styled@);
            }
            string
        },
        FileType::FILE => {
            let mut string = String::from_str("📄 ");
            string.append(styled.as_str());
            proof {
                reveal_strlit("📄 ");
                assert(string@ =~= icon_seq(FileType::FILE) + styled@);
            }
            string
        },
        FileType::SYMLINK => {
            let mut string = String::from_str("🔗 ");
            string.append(styled.as_str());
            proof {
                reveal_strlit("🔗 ");
                assert(string@ =~= icon_seq(FileType::SYMLINK) + styled@);
            }
            string
        },
        FileType::HIDDEN => {
            let mut string = String::from_str("🫣 ");
            string.append(styled.as_str());
            proof {
                reveal_strlit("🫣 ");
                assert(string@ =~= icon_seq(FileType::HIDDEN) + styled@);
            }
            string
        },
        FileType::OTHER => {
            proof {
                assert(icon_seq(FileType::OTHER) + styled@ =~= styled@);
            }
            styled
        },
    }
}

/// Decorate one entry's already-normalized name by its kind: icon, space,
/// then the styled name; an `OTHER` entry passes through unchanged.
pub fn add_color(formatted_str: String, entry: PathInfo) -> (r: String)
    ensures
        decorated_ok(formatted_str@, entry.file_type, r@),
{
    match entry.file_type {
        FileType::DIRECTORY => {
            let styled = render_styled(&bold_styled(truecolor_str(
                formatted_str.as_str(),
                255,
                180,
                20,
            )));
            let r = decorate(styled, FileType::DIRECTORY);
            proof {
                assert(r@.subrange(0, 2) =~= icon_seq(FileType::DIRECTORY));
            }
            r
        },
        FileType::FILE => {
            let styled = render_styled(&truecolor_str(formatted_str.as_str(), 255, 255, 255));
            let r = decorate(styled, FileType::FILE);
            proof {
                assert(r@.subrange(0, 2) =~= icon_seq(FileType::FILE));
            }
            r
        },
        FileType::SYMLINK => {
            let styled = render_styled(&truecolor_str(formatted_str.as_str(), 170, 250, 250));
            let r = decorate(styled, FileType::SYMLINK);
            proof {
                assert(r@.subrange(0, 2) =~= icon_seq(FileType::SYMLINK));
            }
            r
        },
        FileType::HIDDEN => {
            let styled = render_styled(&italic_styled(truecolor_str(
                formatted_str.as_str(),
                130,
                130,
                130,
            )));
            let r = decorate(styled, FileType::HIDDEN);
            proof {
                assert(r@.subrange(0, 2) =~= icon_seq(FileType::HIDDEN));
            }
            r
        },
        FileType::OTHER => decorate(formatted_str, FileType::OTHER),
    }
}

/// Format a scan's entries in order, one output string per entry: strip a
/// leading `"./"` from each name, then decorate by kind.
pub fn format_list(list: Vec<PathInfo>) -> (result: Vec<String>)
    ensures
        result@.len() == list@.len(),
        forall|i: int|
            0 <= i < list@.len() ==> decorated_ok(
                spec_trimmed((#[trigger] list@[i])@.name),
                list@[i]@.file_type,
                result@[i]@,
            ),
{
    let mut result: Vec<String> = Vec::new();
    let mut idx: usize = 0;
    while idx < list.len()
        invariant
            idx <= list@.len(),
            result@.len() == idx,
            forall|i: int|
                0 <= i < idx ==> decorated_ok(
                    spec_trimmed((#[trigger] list@[i])@.name),
                    list@[i]@.file_type,
                    result@[i]@,
                ),
        decreases list@.len() - idx,
    {
        let formatted_entry = trim_prefix_repeated(list[idx].name.as_str(), "./");
        proof {
            reveal_strlit("./");
            assert("./"@ =~= seq!['.', '/']);
        }
        let entry = PathInfo { name: list[idx].name.clone(), file_type: list[idx].file_type };
        let colored_entry = add_color(formatted_entry, entry);
        result.push(colored_entry);
        idx += 1;
    }
    result
}

} // verus!
