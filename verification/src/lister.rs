//! The listing pipeline: an immutable configuration built by `with_*` steps,
//! and a scan that turns raw directory entries into classified, filtered
//! entries in enumeration order.

use vstd::prelude::*;
use crate::text::{char_at_is, contains_seq, contains_substr, remove_all, remove_all_occurrences};

verus! {

/// The kind assigned to one entry at scan time, never changed afterwards.
#[allow(non_camel_case_types)]
#[derive(Clone, Copy, PartialEq, Eq, Structural, Debug)]
pub enum FileType {
    DIRECTORY,
    SYMLINK,
    FILE,
    HIDDEN,
    OTHER,
}

/// What the filesystem's type query reported for one raw entry.
#[derive(Clone, Copy, PartialEq, Eq, Structural, Debug)]
pub enum TypeQuery {
    /// The query succeeded and reports a directory.
    Directory,
    /// The query succeeded and reports a regular file.
    RegularFile,
    /// The query succeeded but reports neither a directory nor a regular
    /// file: a symlink, or a kind this tool does not distinguish.
    NeitherDirNorFile,
    /// The query itself failed.
    Failed,
}

/// One raw entry as the directory enumeration hands it over: the full path
/// rendered as text (empty when it cannot be), and the type query's report.
#[derive(Clone, PartialEq, Debug)]
pub struct RawEntry {
    pub path_text: String,
    pub query: TypeQuery,
}

/// One classified, included entry of a scan.
#[derive(Clone, PartialEq, Debug)]
pub struct PathInfo {
    pub name: String,
    pub file_type: FileType,
}

/// The listing configuration: a target path and four inclusion switches.
pub struct Lister {
    pub path: String,
    pub with_dir: bool,
    pub with_file: bool,
    pub with_hidden: bool,
    pub with_symlink: bool,
}

/// Mathematical model of a `RawEntry`.
pub ghost struct RawEntryV {
    pub path_text: Seq<char>,
    pub query: TypeQuery,
}

/// Mathematical model of a `PathInfo`.
pub ghost struct PathInfoV {
    pub name: Seq<char>,
    pub file_type: FileType,
}

/// Mathematical model of a `Lister`.
pub ghost struct ListerV {
    pub path: Seq<char>,
    pub with_dir: bool,
    pub with_file: bool,
    pub with_hidden: bool,
    pub with_symlink: bool,
}

impl View for RawEntry {
    type V = RawEntryV;

    open spec fn view(&self) -> RawEntryV {
        RawEntryV { path_text: self.path_text@, query: self.query }
    }
}

impl View for PathInfo {
    type V = PathInfoV;

    open spec fn view(&self) -> PathInfoV {
        PathInfoV { name: self.name@, file_type: self.file_type }
    }
}

impl View for Lister {
    type V = ListerV;

    open spec fn view(&self) -> ListerV {
        ListerV {
            path: self.path@,
            with_dir: self.with_dir,
            with_file: self.with_file,
            with_hidden: self.with_hidden,
            with_symlink: self.with_symlink,
        }
    }
}

/// The substring whose presence in a relative display name marks a regular
/// file as hidden.
pub open spec fn hidden_marker() -> Seq<char> {
    seq!['.', '/', '.']
}

/// The scan-path prefix: the target path with exactly one trailing separator.
pub open spec fn spec_prefix(path: Seq<char>) -> Seq<char> {
    if path.len() > 0 && path[path.len() - 1] == '/' {
        path
    } else {
        path.push('/')
    }
}

/// The relative display name of an entry: its full path text with every
/// occurrence of the scan-path prefix removed.
pub open spec fn spec_rel_name(path: Seq<char>, full: Seq<char>) -> Seq<char> {
    remove_all(full, spec_prefix(path))
}

/// The kind of an entry, from its relative display name and type query: a
/// reported directory is `DIRECTORY`; a reported regular file is `HIDDEN`
/// when its name contains the marker and `FILE` otherwise; any other report
/// is `SYMLINK`; a failed query is `OTHER`.
pub open spec fn spec_classify(rel: Seq<char>, query: TypeQuery) -> FileType {
    match query {
        TypeQuery::Directory => FileType::DIRECTORY,
        TypeQuery::RegularFile => if contains_seq(rel, hidden_marker()) {
            FileType::HIDDEN
        } else {
            FileType::FILE
        },
        TypeQuery::NeitherDirNorFile => FileType::SYMLINK,
        TypeQuery::Failed => FileType::OTHER,
    }
}

/// Whether an entry of kind `kind` with relative display name `rel` is
/// included: its kind's switch must be on, an empty name is never included,
/// and `OTHER` is never included.
pub open spec fn spec_include(l: ListerV, rel: Seq<char>, kind: FileType) -> bool {
    rel.len() > 0 && match kind {
        FileType::DIRECTORY => l.with_dir,
        FileType::HIDDEN => l.with_hidden,
        FileType::FILE => l.with_file,
        FileType::SYMLINK => l.with_symlink,
        FileType::OTHER => false,
    }
}

/// The sequence of classified entries a scan of `raws` yields under
/// configuration `l`, in enumeration order.
pub open spec fn spec_scan(l: ListerV, raws: Seq<RawEntryV>) -> Seq<PathInfoV>
    decreases raws.len(),
{
    if raws.len() == 0 {
        Seq::empty()
    } else {
        let rest = spec_scan(l, raws.drop_last());
        let rel = spec_rel_name(l.path, raws.last().path_text);
        let kind = spec_classify(rel, raws.last().query);
        if spec_include(l, rel, kind) {
            rest.push(PathInfoV { name: rel, file_type: kind })
        } else {
            rest
        }
    }
}

impl Lister {
    /// The default configuration: target `"."`, only regular files included.
    pub fn default() -> (r: Lister)
        ensures
            r@ == (ListerV {
                path: seq!['.'],
                with_dir: false,
                with_file: true,
                with_hidden: false,
                with_symlink: false,
            }),
    {
        let default_dir = String::from_str(".");
        proof {
            reveal_strlit(".");
            assert(default_dir@ =~= seq!['.']);
        }
        Lister {
            path: default_dir,
            with_dir: false,
            with_file: true,
            with_hidden: false,
            with_symlink: false,
        }
    }

    /// A copy of this configuration with the directory switch replaced.
    pub fn with_dir(&self, with_dir: bool) -> (r: Lister)
        ensures
            r@ == (ListerV { with_dir, ..self@ }),
    {
        Lister {
            path: self.path.clone(),
            with_dir,
            with_file: self.with_file,
            with_hidden: self.with_hidden,
            with_symlink: self.with_symlink,
        }
    }

    /// A copy of this configuration with the target path replaced.
    pub fn with_path(&self, path: String) -> (r: Lister)
        ensures
            r@ == (ListerV { path: path@, ..self@ }),
    {
        Lister {
            path,
            with_dir: self.with_dir,
            with_file: self.with_file,
            with_hidden: self.with_hidden,
            with_symlink: self.with_symlink,
        }
    }

    /// A copy of this configuration with the hidden-file switch replaced.
    pub fn with_hidden(&self, with_hidden: bool) -> (r: Lister)
        ensures
            r@ == (ListerV { with_hidden, ..self@ }),
    {
        Lister {
            path: self.path.clone(),
            with_dir: self.with_dir,
            with_file: self.with_file,
            with_hidden,
            with_symlink: self.with_symlink,
        }
    }

    /// A copy of this configuration with the regular-file switch replaced.
    pub fn with_file(&self, with_file: bool) -> (r: Lister)
        ensures
            r@ == (ListerV { with_file, ..self@ }),
    {
        Lister {
            path: self.path.clone(),
            with_dir: self.with_dir,
            with_file,
            with_hidden: self.with_hidden,
            with_symlink: self.with_symlink,
        }
    }

    /// A copy of this configuration with the symlink switch replaced.
    pub fn with_symlink(&self, with_symlink: bool) -> (r: Lister)
        ensures
            r@ == (ListerV { with_symlink, ..self@ }),
    {
        Lister {
            path: self.path.clone(),
            with_dir: self.with_dir,
            with_file: self.with_file,
            with_hidden: self.with_hidden,
            with_symlink,
        }
    }

    /// The scan-path prefix: the target path, with a trailing separator
    /// appended when its last character is not already one.
    pub fn scan_prefix(&self) -> (p: String)
        ensures
            p@ == spec_prefix(self@.path),
    {
        let len = self.path.as_str().unicode_len();
        let mut p = self.path.clone();
        if !(len > 0 && char_at_is(&self.path, len - 1, '/')) {
            p.append("/");
            proof {
                reveal_strlit("/");
                assert(self.path@.push('/') =~= self.path@ + "/"@);
            }
        }
        p
    }

    /// One scan: classify each raw entry by its relative display name and
    /// type query, keep exactly those the switches include, in order.
    pub fn get_list(&self, raw: Vec<RawEntry>) -> (list: Vec<PathInfo>)
        ensures
            list@.map_values(|p: PathInfo| p@) == spec_scan(
                self@,
                raw@.map_values(|r: RawEntry| r@),
            ),
    {
        let prefix = self.scan_prefix();
        let mut list: Vec<PathInfo> = Vec::new();
        let mut idx: usize = 0;
        proof {
            assert(raw@.map_values(|r: RawEntry| r@).take(0) =~= Seq::<RawEntryV>::empty());
            assert(list@.map_values(|p: PathInfo| p@) =~= Seq::<PathInfoV>::empty());
        }
        while idx < raw.len()
            invariant
                idx <= raw@.len(),
                prefix@ == spec_prefix(self@.path),
                list@.map_values(|p: PathInfo| p@) == spec_scan(
                    self@,
                    raw@.map_values(|r: RawEntry| r@).take(idx as int),
                ),
            decreases raw@.len() - idx,
        {
            let ghost rv = raw@.map_values(|r: RawEntry| r@);
            let ghost old_list = list@;
            let entry = &raw[idx];
            let path_str = remove_all_occurrences(entry.path_text.as_str(), prefix.as_str());
            let file_type = classify_entry(&path_str, entry.query);
            let to_include = self.should_include(&path_str, file_type);
            if to_include {
                list.push(PathInfo { name: path_str, file_type });
            }
            proof {
                assert(rv.take(idx + 1).drop_last() =~= rv.take(idx as int));
                assert(rv.take(idx + 1).last() == rv[idx as int]);
                if to_include {
                    assert(list@.map_values(|p: PathInfo| p@) =~= old_list.map_values(
                        |p: PathInfo| p@,
                    ).push(list@.last()@));
                }
            }
            idx += 1;
        }
        proof {
            assert(raw@.map_values(|r: RawEntry| r@).take(raw@.len() as int) =~= raw@.map_values(
                |r: RawEntry| r@,
            ));
        }
        list
    }

    /// The inclusion decision for one classified entry.
    pub fn should_include(&self, rel: &String, kind: FileType) -> (r: bool)
        ensures
            r == spec_include(self@, rel@, kind),
    {
        let mut to_include = false;
        if !rel.as_str().is_empty() {
            if kind == FileType::DIRECTORY && self.with_dir {
                to_include = true;
            }
            if kind == FileType::HIDDEN && self.with_hidden {
                to_include = true;
            }
            if kind == FileType::FILE && self.with_file {
                to_include = true;
            }
            if kind == FileType::SYMLINK && self.with_symlink {
                to_include = true;
            }
        }
        to_include
    }
}

/// Classify one entry from its relative display name and type query.
pub fn classify_entry(rel: &String, query: TypeQuery) -> (kind: FileType)
    ensures
        kind == spec_classify(rel@, query),
{
    match query {
        TypeQuery::Directory => FileType::DIRECTORY,
        TypeQuery::RegularFile => {
            let hidden = contains_substr(rel.as_str(), "./.");
            proof {
                reveal_strlit("./.");
                assert("./."@ =~= hidden_marker());
            }
            if hidden {
                FileType::HIDDEN
            } else {
                FileType::FILE
            }
        },
        TypeQuery::NeitherDirNorFile => FileType::SYMLINK,
        TypeQuery::Failed => FileType::OTHER,
    }
}

/// Law: classification of a successful regular-file query is substring-based.
/// A name containing the marker `"./."` anywhere is `HIDDEN`; one without it
/// is `FILE`.
pub proof fn lemma_hidden_is_substring_based(rel: Seq<char>)
    ensures
        contains_seq(rel, hidden_marker()) ==> spec_classify(rel, TypeQuery::RegularFile)
            == FileType::HIDDEN,
        !contains_seq(rel, hidden_marker()) ==> spec_classify(rel, TypeQuery::RegularFile)
            == FileType::FILE,
{
}

/// Law: scanning is a pure function of the configuration and the raw
/// entries, so two scans of the same unchanged directory yield identical
/// sequences, in the same order and with the same classifications.
pub proof fn lemma_scan_deterministic(
    l: ListerV,
    raws: Seq<RawEntryV>,
    first: Seq<PathInfoV>,
    second: Seq<PathInfoV>,
)
    requires
        first == spec_scan(l, raws),
        second == spec_scan(l, raws),
    ensures
        first == second,
{
}

/// Law: every entry a scan yields has a non-empty display name and a kind
/// whose inclusion switch is on; in particular `OTHER` never appears.
pub proof fn lemma_scan_respects_switches(l: ListerV, raws: Seq<RawEntryV>)
    ensures
        forall|j: int|
            0 <= j < spec_scan(l, raws).len() ==> spec_include(
                l,
                (#[trigger] spec_scan(l, raws)[j]).name,
                spec_scan(l, raws)[j].file_type,
            ),
    decreases raws.len(),
{
    if raws.len() > 0 {
        lemma_scan_respects_switches(l, raws.drop_last());
    }
}

/// Law: under switches that admit only regular files — as the default
/// configuration has them — every entry a scan yields has kind `FILE`.
pub proof fn lemma_files_only_scan(l: ListerV, raws: Seq<RawEntryV>)
    requires
        !l.with_dir,
        !l.with_hidden,
        !l.with_symlink,
    ensures
        forall|j: int|
            0 <= j < spec_scan(l, raws).len() ==> (#[trigger] spec_scan(l, raws)[j]).file_type
                == FileType::FILE,
{
    lemma_scan_respects_switches(l, raws);
    assert forall|j: int| 0 <= j < spec_scan(l, raws).len() implies (#[trigger] spec_scan(
        l,
        raws,
    )[j]).file_type == FileType::FILE by {
        let e = spec_scan(l, raws)[j];
        assert(spec_include(l, e.name, e.file_type));
    }
}

} // verus!
