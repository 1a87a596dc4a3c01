//! Locating the contestant directory and matching files to problems.
//!
//! The surrounding program lists the root directory's children and walks
//! the chosen contestant directory two levels deep; everything it found is
//! handed in as plain values and classified here.

use vstd::prelude::*;

use crate::config::{Contestant, FileEntry, FileView, Problem, RootEntry, ScanEntry, fe_view};
use crate::errors::CSPError;
use crate::patterns::{regex_accepts, regex_is_match, regex_view};

verus! {

/// Joining a path to a name with `/`, not doubling a trailing separator.
pub open spec fn join_path_spec(base: Seq<char>, name: Seq<char>) -> Seq<char> {
    if base.len() > 0 && base.last() == '/' {
        base + name
    } else {
        base + "/"@ + name
    }
}

/// Join a base path and a name with `/`.
pub fn join_path(base: &str, name: &str) -> (r: String)
    ensures
        r@ == join_path_spec(base@, name@),
{
    let n = base.unicode_len();
    let mut out = String::from_str(base);
    if n > 0 && base.get_char(n - 1) == '/' {
        out.append(name);
    } else {
        out.append("/");
        out.append(name);
    }
    out
}

/// The names of the root's children that are directories and match the
/// contestant regex, in listing order.
pub open spec fn matching_dir_names(entries: Seq<RootEntry>, rv: Seq<char>) -> Seq<Seq<char>>
    decreases entries.len(),
{
    if entries.len() == 0 {
        Seq::empty()
    } else {
        let init = matching_dir_names(entries.drop_last(), rv);
        let e = entries.last();
        if e.is_dir && regex_accepts(rv, e.name@) {
            init.push(e.name@)
        } else {
            init
        }
    }
}

/// One line of the diagnostic list of ambiguous contestant directories:
/// the full path, indented and quoted.
pub open spec fn quoted_path_line(root: Seq<char>, name: Seq<char>) -> Seq<char> {
    "    \""@ + join_path_spec(root, name) + "\""@
}

/// The diagnostic list of ambiguous contestant directories, one quoted
/// path per line.
pub open spec fn multiple_dirs_text(root: Seq<char>, names: Seq<Seq<char>>) -> Seq<char>
    decreases names.len(),
{
    if names.len() == 0 {
        Seq::empty()
    } else if names.len() == 1 {
        quoted_path_line(root, names[0])
    } else {
        multiple_dirs_text(root, names.drop_last()) + "\n"@ + quoted_path_line(root, names.last())
    }
}

/// Select the one directory under the root whose name matches the
/// contestant regex.  Its name relative to the root is the contestant
/// identifier.  Zero matches and more than one match are each a fatal
/// error; the latter carries the list of paths found.
pub fn find_contestant_dir(cfg: &Contestant, root_entries: &Vec<RootEntry>) -> (r: Result<
    String,
    CSPError,
>)
    ensures
        matching_dir_names(root_entries@, regex_view(cfg.regex)).len() == 1 ==> (r matches Ok(id)
            && id@ == matching_dir_names(root_entries@, regex_view(cfg.regex))[0]),
        matching_dir_names(root_entries@, regex_view(cfg.regex)).len() == 0 ==> (r matches Err(e)
            && e is NoValidContestantDir),
        matching_dir_names(root_entries@, regex_view(cfg.regex)).len() > 1 ==> (r matches Err(e)
            && e matches CSPError::MultipleContestantDir(s)
            && s@ == multiple_dirs_text(
            cfg.root_path@,
            matching_dir_names(root_entries@, regex_view(cfg.regex)),
        )),
{
    let ghost rv = regex_view(cfg.regex);
    let mut found: Vec<String> = Vec::new();
    let n = root_entries.len();
    let mut i: usize = 0;
    while i < n
        invariant
            n == root_entries@.len(),
            i <= n,
            rv == regex_view(cfg.regex),
            found@.map_values(|s: String| s@) == matching_dir_names(
                root_entries@.take(i as int),
                rv,
            ),
        decreases n - i,
    {
        let e = &root_entries[i];
        if e.is_dir && regex_is_match(&cfg.regex, e.name.as_str()) {
            found.push(e.name.clone());
        }
        proof {
            let t1 = root_entries@.take(i + 1);
            assert(t1.drop_last() =~= root_entries@.take(i as int));
            assert(t1.last() == root_entries@[i as int]);
            assert(found@.map_values(|s: String| s@) =~= matching_dir_names(t1, rv));
        }
        i = i + 1;
    }
    proof {
        assert(root_entries@.take(n as int) =~= root_entries@);
    }
    let ghost m = matching_dir_names(root_entries@, rv);
    if found.len() == 0 {
        return Err(CSPError::NoValidContestantDir);
    }
    if found.len() == 1 {
        let ghost f0 = found@;
        let id = found.remove(0);
        proof {
            assert(id == f0[0]);
            assert(m[0] == f0.map_values(|s: String| s@)[0]);
        }
        return Ok(id);
    }
    let len = found.len();
    let mut text = String::new();
    let mut j: usize = 0;
    while j < len
        invariant
            len == found@.len(),
            len >= 2,
            j <= len,
            m == found@.map_values(|s: String| s@),
            m == matching_dir_names(root_entries@, regex_view(cfg.regex)),
            text@ == multiple_dirs_text(cfg.root_path@, m.take(j as int)),
        decreases len - j,
    {
        if j > 0 {
            text.append("\n");
        }
        text.append("    \"");
        let p = join_path(cfg.root_path.as_str(), found[j].as_str());
        text.append(p.as_str());
        text.append("\"");
        proof {
            let t1 = m.take(j + 1);
            assert(t1.drop_last() =~= m.take(j as int));
            assert(t1.last() == m[j as int]);
            assert(m[j as int] == found@[j as int]@);
            if j == 0 {
                assert(text@ =~= quoted_path_line(cfg.root_path@, m[0]));
                assert(t1.len() == 1);
                assert(t1[0] == m[0]);
            } else {
                assert(text@ =~= multiple_dirs_text(cfg.root_path@, m.take(j as int)) + "\n"@
                    + quoted_path_line(cfg.root_path@, m[j as int]));
            }
        }
        j = j + 1;
    }
    proof {
        assert(m.take(len as int) =~= m);
    }
    Err(CSPError::MultipleContestantDir(text))
}

/// A scanned file's path relative to the contestant directory.
pub open spec fn se_rel(e: ScanEntry) -> Seq<char> {
    e.subdir@ + "/"@ + e.name@
}

/// The `FileView` a scan entry yields once matched to a problem.
pub open spec fn se_file_view(user_dir: Seq<char>, e: ScanEntry) -> FileView {
    FileView {
        path: join_path_spec(user_dir, se_rel(e)),
        rel: se_rel(e),
        mtime: e.mtime,
        content: match e.content {
            Ok(b) => Ok(b@),
            Err(m) => Err(m@),
        },
    }
}

/// The files a pattern matches among the scanned entries, in discovery
/// order.  A file may match several problems; no exclusivity holds.
pub open spec fn matched_views(user_dir: Seq<char>, entries: Seq<ScanEntry>, rv: Seq<char>) -> Seq<
    FileView,
>
    decreases entries.len(),
{
    if entries.len() == 0 {
        Seq::empty()
    } else {
        let init = matched_views(user_dir, entries.drop_last(), rv);
        if regex_accepts(rv, se_rel(entries.last())) {
            init.push(se_file_view(user_dir, entries.last()))
        } else {
            init
        }
    }
}

/// Copy a byte vector.
fn clone_bytes(v: &Vec<u8>) -> (r: Vec<u8>)
    ensures
        r@ == v@,
{
    let mut out: Vec<u8> = Vec::new();
    let n = v.len();
    let mut i: usize = 0;
    while i < n
        invariant
            n == v@.len(),
            i <= n,
            out@ == v@.take(i as int),
        decreases n - i,
    {
        out.push(v[i]);
        proof {
            assert(out@ =~= v@.take(i + 1));
        }
        i = i + 1;
    }
    proof {
        assert(v@.take(n as int) =~= v@);
    }
    out
}

/// Copy a file's content-or-error.
fn clone_content(c: &Result<Vec<u8>, String>) -> (r: Result<Vec<u8>, String>)
    ensures
        c matches Ok(b) ==> (r matches Ok(b2) && b2@ == b@),
        c matches Err(m) ==> (r matches Err(m2) && m2@ == m@),
{
    match c {
        Ok(b) => Ok(clone_bytes(b)),
        Err(m) => Err(m.clone()),
    }
}

/// Match every scanned file against every problem's regex, in
/// configuration order, appending each match to the problem's file list
/// together with its path, relative path and timestamp.
pub fn scan_files(problems: &mut Vec<Problem>, user_dir: &str, entries: &Vec<ScanEntry>)
    ensures
        final(problems)@.len() == old(problems)@.len(),
        forall|k: int|
            0 <= k < old(problems)@.len() ==> {
                &&& (#[trigger] final(problems)@[k]).name == old(problems)@[k].name
                &&& final(problems)@[k].regex == old(problems)@[k].regex
                &&& final(problems)@[k].existing_files@.map_values(|f: FileEntry| fe_view(f))
                    == old(problems)@[k].existing_files@.map_values(|f: FileEntry| fe_view(f))
                    + matched_views(user_dir@, entries@, regex_view(old(problems)@[k].regex))
            },
{
    let n_p = problems.len();
    let mut k: usize = 0;
    while k < n_p
        invariant
            n_p == problems@.len(),
            n_p == old(problems)@.len(),
            k <= n_p,
            forall|k2: int| k <= k2 < n_p ==> problems@[k2] == old(problems)@[k2],
            forall|k2: int|
                #![trigger problems@[k2]]
                0 <= k2 < k ==> {
                    &&& problems@[k2].name == old(problems)@[k2].name
                    &&& problems@[k2].regex == old(problems)@[k2].regex
                    &&& problems@[k2].existing_files@.map_values(|f: FileEntry| fe_view(f))
                        == old(problems)@[k2].existing_files@.map_values(|f: FileEntry| fe_view(f))
                        + matched_views(user_dir@, entries@, regex_view(old(problems)@[k2].regex))
                },
        decreases n_p - k,
    {
        let ghost snap = problems@;
        let ghost rv = regex_view(snap[k as int].regex);
        proof {
            assert(forall|k2: int| k <= k2 < n_p ==> snap[k2] == old(problems)@[k2]);
            assert(forall|k2: int|
                #![trigger snap[k2]]
                0 <= k2 < k ==> {
                    &&& snap[k2].name == old(problems)@[k2].name
                    &&& snap[k2].regex == old(problems)@[k2].regex
                    &&& snap[k2].existing_files@.map_values(|f: FileEntry| fe_view(f)) == old(
                        problems,
                    )@[k2].existing_files@.map_values(|f: FileEntry| fe_view(f)) + matched_views(
                        user_dir@,
                        entries@,
                        regex_view(old(problems)@[k2].regex),
                    )
                });
        }
        let n_e = entries.len();
        let mut j: usize = 0;
        while j < n_e
            invariant
                n_e == entries@.len(),
                j <= n_e,
                k < n_p,
                n_p == problems@.len(),
                n_p == snap.len(),
                rv == regex_view(snap[k as int].regex),
                forall|k2: int| 0 <= k2 < n_p && k2 != k ==> problems@[k2] == snap[k2],
                problems@[k as int].name == snap[k as int].name,
                problems@[k as int].regex == snap[k as int].regex,
                problems@[k as int].existing_files@.map_values(|f: FileEntry| fe_view(f))
                    == snap[k as int].existing_files@.map_values(|f: FileEntry| fe_view(f))
                    + matched_views(user_dir@, entries@.take(j as int), rv),
            decreases n_e - j,
        {
            let e = &entries[j];
            let mut rel = e.subdir.clone();
            rel.append("/");
            rel.append(e.name.as_str());
            proof {
                assert(rel@ == se_rel(entries@[j as int]));
            }
            let matched = regex_is_match(&problems[k].regex, rel.as_str());
            proof {
                let t1 = entries@.take(j + 1);
                assert(t1.drop_last() =~= entries@.take(j as int));
                assert(t1.last() == entries@[j as int]);
            }
            if matched {
                let path = join_path(user_dir, rel.as_str());
                let fe = FileEntry {
                    path,
                    rel,
                    mtime: e.mtime,
                    content: clone_content(&e.content),
                };
                proof {
                    assert(fe_view(fe) =~= se_file_view(user_dir@, entries@[j as int]));
                }
                let ghost files_pre = problems@[k as int].existing_files@;
                problems[k].existing_files.push(fe);
                proof {
                    let fv = |f: FileEntry| fe_view(f);
                    let sv = se_file_view(user_dir@, entries@[j as int]);
                    let base = snap[k as int].existing_files@.map_values(fv);
                    assert(problems@[k as int].existing_files@ == files_pre.push(fe));
                    assert(files_pre.push(fe).map_values(fv) =~= files_pre.map_values(fv).push(
                        fe_view(fe),
                    ));
                    assert(matched_views(user_dir@, entries@.take(j + 1), rv) == matched_views(
                        user_dir@,
                        entries@.take(j as int),
                        rv,
                    ).push(sv));
                    assert(base + matched_views(user_dir@, entries@.take(j as int), rv).push(sv)
                        =~= (base + matched_views(user_dir@, entries@.take(j as int), rv)).push(
                        sv,
                    ));
                    assert(problems@[k as int].existing_files@.map_values(fv) =~= base
                        + matched_views(user_dir@, entries@.take(j + 1), rv));
                }
            } else {
                proof {
                    assert(matched_views(user_dir@, entries@.take(j + 1), rv) =~= matched_views(
                        user_dir@,
                        entries@.take(j as int),
                        rv,
                    ));
                }
            }
            j = j + 1;
        }
        proof {
            assert(entries@.take(n_e as int) =~= entries@);
            assert(snap[k as int] == old(problems)@[k as int]);
            assert forall|k2: int| #![trigger problems@[k2]] 0 <= k2 < k + 1 implies {
                &&& problems@[k2].name == old(problems)@[k2].name
                &&& problems@[k2].regex == old(problems)@[k2].regex
                &&& problems@[k2].existing_files@.map_values(|f: FileEntry| fe_view(f)) == old(
                    problems,
                )@[k2].existing_files@.map_values(|f: FileEntry| fe_view(f)) + matched_views(
                    user_dir@,
                    entries@,
                    regex_view(old(problems)@[k2].regex),
                )
            } by {
                if k2 == k {
                    assert(problems@[k2].existing_files@.map_values(|f: FileEntry| fe_view(f))
                        == old(problems)@[k2].existing_files@.map_values(|f: FileEntry| fe_view(f))
                        + matched_views(user_dir@, entries@, regex_view(old(problems)@[k2].regex)));
                } else {
                    assert(problems@[k2] == snap[k2]);
                    assert(snap[k2].name == old(problems)@[k2].name);
                    assert(snap[k2].regex == old(problems)@[k2].regex);
                    assert(snap[k2].existing_files@.map_values(|f: FileEntry| fe_view(f)) == old(
                        problems,
                    )@[k2].existing_files@.map_values(|f: FileEntry| fe_view(f)) + matched_views(
                        user_dir@,
                        entries@,
                        regex_view(old(problems)@[k2].regex),
                    ));
                }
            }
        }
        k = k + 1;
    }
}

} // verus!
