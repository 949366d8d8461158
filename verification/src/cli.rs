//! Command-line argument handling: option tokens are scanned character by
//! character for the four inclusion switches, and the final token names the
//! target path when it is not an option.

use vstd::prelude::*;
use crate::lister::Lister;

verus! {

/// Whether a token is an option: it begins with `-`.
pub open spec fn spec_is_option(s: Seq<char>) -> bool {
    s.len() > 0 && s[0] == '-'
}

/// Whether any token is an option.
pub open spec fn spec_any_option(args: Seq<Seq<char>>) -> bool {
    exists|i: int| 0 <= i < args.len() && spec_is_option(#[trigger] args[i])
}

/// Whether some option token contains the flag character `c`.
pub open spec fn spec_flag_set(args: Seq<Seq<char>>, c: char) -> bool {
    exists|i: int|
        0 <= i < args.len() && spec_is_option(#[trigger] args[i]) && args[i].contains(c)
}

/// The target path the tokens select: the last token when there is one and
/// it is not an option, and `"."` otherwise.
pub open spec fn spec_target_path(args: Seq<Seq<char>>) -> Seq<char> {
    if args.len() > 0 && !spec_is_option(args.last()) {
        args.last()
    } else {
        seq!['.']
    }
}

/// The views of a sequence of argument tokens.
pub open spec fn arg_views(args: Seq<String>) -> Seq<Seq<char>> {
    args.map_values(|s: String| s@)
}

/// Tests whether a token is an option, that is, begins with `-`.
pub fn is_arg_option(string: &str) -> (r: bool)
    ensures
        r == spec_is_option(string@),
{
    let len = string.unicode_len();
    if len > 0 {
        string.get_char(0) == '-'
    } else {
        false
    }
}

/// Tests whether a token may name the target path: any token that is not an
/// option.
pub fn check_for_path(string: &str) -> (r: bool)
    ensures
        r == !spec_is_option(string@),
{
    if is_arg_option(string) {
        return false;
    }
    true
}

/// Tests whether `s` contains the character `c`.
pub fn contains_char(s: &str, c: char) -> (r: bool)
    ensures
        r == s@.contains(c),
{
    let len = s.unicode_len();
    let mut i: usize = 0;
    while i < len
        invariant
            i <= len,
            len == s@.len(),
            forall|k: int| 0 <= k < i ==> s@[k] != c,
        decreases len - i,
    {
        if s.get_char(i) == c {
            proof {
                assert(s@[i as int] == c);
            }
            return true;
        }
        i += 1;
    }
    false
}

proof fn lemma_any_option_push(args: Seq<Seq<char>>, x: Seq<char>)
    ensures
        spec_any_option(args.push(x)) == (spec_any_option(args) || spec_is_option(x)),
{
    if spec_any_option(args) {
        let i = choose|i: int| 0 <= i < args.len() && spec_is_option(#[trigger] args[i]);
        assert(args.push(x)[i] == args[i]);
    }
    if spec_is_option(x) {
        assert(args.push(x)[args.len() as int] == x);
    }
    if spec_any_option(args.push(x)) {
        let i = choose|i: int|
            0 <= i < args.push(x).len() && spec_is_option(#[trigger] args.push(x)[i]);
        if i < args.len() {
            assert(args[i] == args.push(x)[i]);
        }
    }
}

proof fn lemma_flag_set_push(args: Seq<Seq<char>>, x: Seq<char>, c: char)
    ensures
        spec_flag_set(args.push(x), c) == (spec_flag_set(args, c) || (spec_is_option(x)
            && x.contains(c))),
{
    if spec_flag_set(args, c) {
        let i = choose|i: int|
            0 <= i < args.len() && spec_is_option(#[trigger] args[i]) && args[i].contains(c);
        assert(args.push(x)[i] == args[i]);
    }
    if spec_is_option(x) && x.contains(c) {
        assert(args.push(x)[args.len() as int] == x);
    }
    if spec_flag_set(args.push(x), c) {
        let i = choose|i: int|
            0 <= i < args.push(x).len() && spec_is_option(#[trigger] args.push(x)[i])
                && args.push(x)[i].contains(c);
        if i < args.len() {
            assert(args[i] == args.push(x)[i]);
        }
    }
}

/// Build the listing configuration the argument tokens (the tokens after the
/// program name) select: each of `d`, `h`, `f`, `s` inside an option token
/// turns its switch on, in any order or combination; unrecognized characters
/// are ignored; with no option token at all the default — regular files only
/// — stands; the last token names the target path unless it is an option.
pub fn lister_from_args(args: &Vec<String>) -> (l: Lister)
    ensures
        l@.path == spec_target_path(arg_views(args@)),
        l@.with_dir == spec_flag_set(arg_views(args@), 'd'),
        l@.with_hidden == spec_flag_set(arg_views(args@), 'h'),
        l@.with_symlink == spec_flag_set(arg_views(args@), 's'),
        l@.with_file == (spec_flag_set(arg_views(args@), 'f') || !spec_any_option(
            arg_views(args@),
        )),
{
    let mut with_dir = false;
    let mut with_hidden = false;
    let mut with_file_flag = false;
    let mut with_symlink = false;
    let mut any_option = false;
    let mut i: usize = 0;
    proof {
        assert(arg_views(args@).take(0) =~= Seq::<Seq<char>>::empty());
    }
    while i < args.len()
        invariant
            i <= args@.len(),
            any_option == spec_any_option(arg_views(args@).take(i as int)),
            with_dir == spec_flag_set(arg_views(args@).take(i as int), 'd'),
            with_hidden == spec_flag_set(arg_views(args@).take(i as int), 'h'),
            with_file_flag == spec_flag_set(arg_views(args@).take(i as int), 'f'),
            with_symlink == spec_flag_set(arg_views(args@).take(i as int), 's'),
        decreases args@.len() - i,
    {
        let arg = &args[i];
        if is_arg_option(arg.as_str()) {
            any_option = true;
            if contains_char(arg.as_str(), 'd') {
                with_dir = true;
            }
            if contains_char(arg.as_str(), 'h') {
                with_hidden = true;
            }
            if contains_char(arg.as_str(), 'f') {
                with_file_flag = true;
            }
            if contains_char(arg.as_str(), 's') {
                with_symlink = true;
            }
        }
        proof {
            let av = arg_views(args@);
            assert(av.take(i + 1) =~= av.take(i as int).push(av[i as int]));
            lemma_any_option_push(av.take(i as int), av[i as int]);
            lemma_flag_set_push(av.take(i as int), av[i as int], 'd');
            lemma_flag_set_push(av.take(i as int), av[i as int], 'h');
            lemma_flag_set_push(av.take(i as int), av[i as int], 'f');
            lemma_flag_set_push(av.take(i as int), av[i as int], 's');
        }
        i += 1;
    }
    proof {
        assert(arg_views(args@).take(args@.len() as int) =~= arg_views(args@));
    }
    let mut path = String::from_str(".");
    proof {
        reveal_strlit(".");
        assert(path@ =~= seq!['.']);
    }
    if args.len() > 0 {
        let last = &args[args.len() - 1];
        if check_for_path(last.as_str()) {
            path = last.clone();
        }
    }
    let with_file = with_file_flag || !any_option;
    Lister::default().with_dir(with_dir).with_file(with_file).with_hidden(with_hidden)
        .with_symlink(with_symlink).with_path(path)
}

} // verus!
