//! The configuration and the data the scan collects.
//!
//! Timestamps are microseconds since the Unix epoch, UTC.  Paths are plain
//! strings with `/` as separator, as the configuration file is normalized
//! to before its regexes are compiled.

use vstd::prelude::*;

use crate::patterns::{regex_compiles, regex_new, regex_view};

verus! {

/// One immediate child of the configured root directory, as the surrounding
/// program listed it.
pub struct RootEntry {
    /// The child's name, relative to the root.
    pub name: String,
    /// Whether the child is a directory.
    pub is_dir: bool,
}

/// One file found by the two-level walk of the contestant directory: a file
/// named `name` directly inside the subdirectory `subdir`.
pub struct ScanEntry {
    /// Name of the subdirectory of the contestant directory.
    pub subdir: String,
    /// Name of the file inside that subdirectory.
    pub name: String,
    /// Best-effort modification time, microseconds since the Unix epoch;
    /// `None` when no timestamp could be read.
    pub mtime: Option<i64>,
    /// The file's bytes, or the text describing why they could not be read.
    pub content: Result<Vec<u8>, String>,
}

/// A file matched to a problem: its full path, its path relative to the
/// contestant directory, and what the walk read of it.
pub struct FileEntry {
    /// Full path of the file.
    pub path: String,
    /// Path relative to the contestant directory.
    pub rel: String,
    /// Best-effort modification time, microseconds since the Unix epoch.
    pub mtime: Option<i64>,
    /// The file's bytes, or the text describing why they could not be read.
    pub content: Result<Vec<u8>, String>,
}

/// A named submission slot with its file-matching rule and the files a scan
/// matched to it.
pub struct Problem {
    /// The problem's name, unique within a configuration.
    pub name: String,
    /// Matches a file's path relative to the contestant directory.
    pub regex: regex::Regex,
    /// The files matched so far, in discovery order.
    pub existing_files: Vec<FileEntry>,
}

/// The configuration of one run: where to look, how to recognize the
/// contestant directory, the problems, and the exam window.
pub struct Contestant {
    /// Parent path of the contestant directories.
    pub root_path: String,
    /// Recognizes the one contestant directory by its name.
    pub regex: regex::Regex,
    /// The problems, in configuration order.
    pub problems: Vec<Problem>,
    /// Start of the exam window, microseconds since the Unix epoch.
    pub start_time: i64,
    /// End of the exam window, microseconds since the Unix epoch.
    pub end_time: i64,
    /// Maximum file size in kilobytes.
    pub size_limit_kb: u64,
}

impl Contestant {
    /// The configuration invariant: the exam window is a real interval.
    pub open spec fn wf(&self) -> bool {
        self.start_time <= self.end_time
    }
}

/// The mathematical value of a matched file: each field as its view.
#[verifier::ext_equal]
pub struct FileView {
    pub path: Seq<char>,
    pub rel: Seq<char>,
    pub mtime: Option<i64>,
    pub content: Result<Seq<u8>, Seq<char>>,
}

/// The view of a `FileEntry`.
pub open spec fn fe_view(f: FileEntry) -> FileView {
    FileView {
        path: f.path@,
        rel: f.rel@,
        mtime: f.mtime,
        content: match f.content {
            Ok(b) => Ok(b@),
            Err(m) => Err(m@),
        },
    }
}

/// The mathematical value of a problem after a scan: its name and the views
/// of its matched files, in discovery order.
#[verifier::ext_equal]
pub struct ProblemView {
    pub name: Seq<char>,
    pub files: Seq<FileView>,
}

/// The view of a `Problem`.
pub open spec fn pv(p: Problem) -> ProblemView {
    ProblemView { name: p.name@, files: p.existing_files@.map_values(|f: FileEntry| fe_view(f)) }
}

/// The views of a list of problems, in order.
pub open spec fn pvs(ps: Seq<Problem>) -> Seq<ProblemView> {
    ps.map_values(|p: Problem| pv(p))
}

/// Windows-style regex strings write the path separator as two backslashes;
/// normalization turns each such pair into `/`, left to right.
pub open spec fn normalize_seps(s: Seq<char>) -> Seq<char>
    decreases s.len(),
{
    if s.len() >= 2 && s[0] == '\\' && s[1] == '\\' {
        seq!['/'] + normalize_seps(s.skip(2))
    } else if s.len() == 0 {
        s
    } else {
        seq![s[0]] + normalize_seps(s.skip(1))
    }
}

/// Replace each pair of backslashes with a forward slash, left to right.
pub fn normalize_separators(s: &str) -> (r: String)
    ensures
        r@ == normalize_seps(s@),
{
    let n = s.unicode_len();
    let mut out = String::new();
    let mut i: usize = 0;
    proof {
        assert(s@.skip(0) == s@);
    }
    while i < n
        invariant
            n == s@.len(),
            i <= n,
            normalize_seps(s@) == out@ + normalize_seps(s@.skip(i as int)),
        decreases n - i,
    {
        let ghost rest = s@.skip(i as int);
        if i + 1 < n && s.get_char(i) == '\\' && s.get_char(i + 1) == '\\' {
            out.append("/");
            proof {
                reveal_strlit("/");
                assert(rest.len() >= 2 && rest[0] == '\\' && rest[1] == '\\');
                assert(rest.skip(2) =~= s@.skip(i + 2));
                assert("/"@ =~= seq!['/']);
                assert(normalize_seps(s@) =~= out@ + normalize_seps(s@.skip(i + 2)));
            }
            i = i + 2;
        } else {
            out.append(s.substring_char(i, i + 1));
            proof {
                assert(!(rest.len() >= 2 && rest[0] == '\\' && rest[1] == '\\'));
                assert(rest.skip(1) =~= s@.skip(i + 1));
                assert(s@.subrange(i as int, i + 1) =~= seq![rest[0]]);
                assert(normalize_seps(s@) =~= out@ + normalize_seps(s@.skip(i + 1)));
            }
            i = i + 1;
        }
    }
    proof {
        assert(s@.skip(n as int) =~= Seq::<char>::empty());
        assert(out@ =~= normalize_seps(s@));
    }
    out
}

/// Build a configuration from the plain values of the configuration file:
/// each regex string is normalized and compiled.  `None` exactly when some
/// normalized regex does not compile.
pub fn build_config(
    root_path: String,
    contestant_regex: &str,
    problems: &Vec<(String, String)>,
    start_time: i64,
    end_time: i64,
    size_limit_kb: u64,
) -> (r: Option<Contestant>)
    ensures
        r is Some <==> (regex_compiles(normalize_seps(contestant_regex@)) && forall|k: int|
            0 <= k < problems@.len() ==> regex_compiles(
                normalize_seps((#[trigger] problems@[k]).1@),
            )),
        r matches Some(c) ==> {
            &&& c.root_path == root_path
            &&& regex_view(c.regex) == normalize_seps(contestant_regex@)
            &&& c.start_time == start_time
            &&& c.end_time == end_time
            &&& c.size_limit_kb == size_limit_kb
            &&& c.problems@.len() == problems@.len()
            &&& forall|k: int|
                0 <= k < problems@.len() ==> {
                    &&& (#[trigger] c.problems@[k]).name@ == problems@[k].0@
                    &&& regex_view(c.problems@[k].regex) == normalize_seps(problems@[k].1@)
                    &&& c.problems@[k].existing_files@.len() == 0
                }
        },
{
    let normalized = normalize_separators(contestant_regex);
    let contestant_re = match regex_new(normalized.as_str()) {
        Some(re) => re,
        None => {
            return None;
        },
    };
    let mut built: Vec<Problem> = Vec::new();
    let n = problems.len();
    let mut k: usize = 0;
    while k < n
        invariant
            n == problems@.len(),
            k <= n,
            built@.len() == k,
            forall|j: int|
                0 <= j < k ==> regex_compiles(normalize_seps((#[trigger] problems@[j]).1@)),
            forall|j: int|
                0 <= j < k ==> {
                    &&& (#[trigger] built@[j]).name@ == problems@[j].0@
                    &&& regex_view(built@[j].regex) == normalize_seps(problems@[j].1@)
                    &&& built@[j].existing_files@.len() == 0
                },
        decreases n - k,
    {
        let name = problems[k].0.clone();
        let pattern = normalize_separators(problems[k].1.as_str());
        let re = match regex_new(pattern.as_str()) {
            Some(re) => re,
            None => {
                proof {
                    assert(!regex_compiles(normalize_seps(problems@[k as int].1@)));
                }
                return None;
            },
        };
        built.push(Problem { name, regex: re, existing_files: Vec::new() });
        k = k + 1;
    }
    Some(Contestant {
        root_path,
        regex: contestant_re,
        problems: built,
        start_time,
        end_time,
        size_limit_kb,
    })
}

} // verus!
