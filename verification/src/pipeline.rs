//! The verification pipeline: one ordered report per run.
//!
//! Given the configuration, the listing of the root directory, the walk of
//! the contestant directory and the optional ledger bytes, the pipeline
//! resolves the contestant directory, matches files to problems, evaluates
//! each problem in configuration order, and compares checksums against the
//! ledger.  A fatal error stops it with no further lines; an unreadable
//! submission file degrades to a text in that problem's block only.

use vstd::prelude::*;

use crate::checksum::{digest_text_v, result_into_ok_or_err, try_crc32};
use crate::config::{Contestant, FileEntry, FileView, Problem, ProblemView, RootEntry, ScanEntry,
    fe_view, pv};
use crate::errors::CSPError;
use crate::ledger::{compare_ledger, csv_rows, ledger_lines, loading_line, rows_wf};
use crate::patterns::regex_view;
use crate::report::{Color, lines_of};
use crate::scanner::{find_contestant_dir, join_path, join_path_spec, matched_views,
    matching_dir_names, multiple_dirs_text, scan_files};
use crate::timefmt::{format_timestamp, ts_text};

verus! {

/// The line announcing the contestant directory that was found.
pub open spec fn found_dir_line(id: Seq<char>) -> (Seq<char>, Color) {
    ("找到选手目录： "@ + id + ", 请确认是否与准考证号一致."@, Color::Yellow)
}

/// The line reporting that no ledger file was found for this contestant.
pub open spec fn no_ledger_line(id: Seq<char>) -> (Seq<char>, Color) {
    ("未找到校验目录的匹配项: "@ + id, Color::Yellow)
}

/// Whether a modification time lies within the exam window, both bounds
/// inclusive.
pub open spec fn ts_valid(t: i64, start_time: i64, end_time: i64) -> bool {
    start_time <= t && t <= end_time
}

/// The line reporting a single matched file's modification time: valid
/// within the window, an error outside it, a warning where none was
/// recorded.
pub open spec fn timestamp_line(mtime: Option<i64>, start_time: i64, end_time: i64) -> (Seq<
    char,
>, Color) {
    match mtime {
        Some(t) => if ts_valid(t, start_time, end_time) {
            ("             修改日期有效 "@ + ts_text(t) + "."@, Color::Black)
        } else {
            ("             修改日期不在考试时间范围内 "@ + ts_text(t) + "."@, Color::Red)
        },
        None => ("             文件没有修改日期记录."@, Color::Yellow),
    }
}

/// The listing of every matched file of an ambiguous problem, one path per
/// line.
pub open spec fn file_list_lines(files: Seq<FileView>) -> Seq<(Seq<char>, Color)>
    decreases files.len(),
{
    if files.len() == 0 {
        Seq::empty()
    } else {
        file_list_lines(files.drop_last()).push(
            ("        "@ + files.last().path, Color::Red),
        )
    }
}

/// The report block of one problem: its header, then one of — a
/// no-file note, a file line with digest and a timestamp line, or an
/// ambiguity error listing every match.
pub open spec fn problem_block_lines(p: ProblemView, start_time: i64, end_time: i64) -> Seq<(Seq<
    char,
>, Color)> {
    seq![("题目 "@ + p.name + ": "@, Color::Black)] + if p.files.len() == 0 {
        seq![("    未找到源代码文件."@, Color::Black)]
    } else if p.files.len() == 1 {
        seq![
            (
                "    找到文件 "@ + p.files[0].rel + " => 校验码 "@ + digest_text_v(p.files[0])
                    + "."@,
                Color::Black,
            ),
            timestamp_line(p.files[0].mtime, start_time, end_time),
        ]
    } else {
        seq![("    找到多个源代码文件:"@, Color::Red)] + file_list_lines(p.files)
    }
}

/// The report blocks of all problems, in configuration order.
pub open spec fn blocks_lines(ps: Seq<ProblemView>, start_time: i64, end_time: i64) -> Seq<(Seq<
    char,
>, Color)>
    decreases ps.len(),
{
    if ps.len() == 0 {
        Seq::empty()
    } else {
        blocks_lines(ps.drop_last(), start_time, end_time) + problem_block_lines(
            ps.last(),
            start_time,
            end_time,
        )
    }
}

/// The view each problem has once the scan has matched the walked files
/// against its regex.
pub open spec fn scanned_pvs(
    ps: Seq<Problem>,
    user_dir: Seq<char>,
    entries: Seq<ScanEntry>,
) -> Seq<ProblemView> {
    ps.map_values(
        |p: Problem| ProblemView {
            name: p.name@,
            files: p.existing_files@.map_values(|f: FileEntry| fe_view(f)) + matched_views(
                user_dir,
                entries,
                regex_view(p.regex),
            ),
        },
    )
}

/// The lines above the ledger comparison: the found-directory
/// announcement, then one block per problem.
pub open spec fn report_prefix(
    cfg: Contestant,
    root_entries: Seq<RootEntry>,
    entries: Seq<ScanEntry>,
) -> Seq<(Seq<char>, Color)> {
    let id = matching_dir_names(root_entries, regex_view(cfg.regex))[0];
    let user_dir = join_path_spec(cfg.root_path@, id);
    seq![found_dir_line(id)] + blocks_lines(
        scanned_pvs(cfg.problems@, user_dir, entries),
        cfg.start_time,
        cfg.end_time,
    )
}

/// Append one problem's report block: the header, then the no-file note,
/// the digest and timestamp lines, or the ambiguity listing.
pub fn problem_block(
    messages: &mut Vec<(String, Color)>,
    prob: &Problem,
    start_time: i64,
    end_time: i64,
)
    ensures
        lines_of(final(messages)@) == lines_of(old(messages)@) + problem_block_lines(
            pv(*prob),
            start_time,
            end_time,
        ),
{
    let ghost base = lines_of(old(messages)@);
    let ghost p = pv(*prob);
    let mut header = String::from_str("题目 ");
    header.append(prob.name.as_str());
    header.append(": ");
    messages.push((header, Color::Black));
    proof {
        assert(lines_of(messages@) =~= base.push(("题目 "@ + p.name + ": "@, Color::Black)));
    }
    let n_files = prob.existing_files.len();
    if n_files == 0 {
        messages.push((String::from_str("    未找到源代码文件."), Color::Black));
        proof {
            assert(lines_of(messages@) =~= base + problem_block_lines(p, start_time, end_time));
        }
    } else if n_files == 1 {
        let f = &prob.existing_files[0];
        proof {
            assert(p.files[0] == fe_view(prob.existing_files@[0]));
        }
        let digest = result_into_ok_or_err(try_crc32(&f.content));
        let mut line = String::from_str("    找到文件 ");
        line.append(f.rel.as_str());
        line.append(" => 校验码 ");
        line.append(digest.as_str());
        line.append(".");
        messages.push((line, Color::Black));
        match f.mtime {
            Some(t) => {
                let shown = format_timestamp(t);
                if start_time <= t && t <= end_time {
                    let mut l2 = String::from_str("             修改日期有效 ");
                    l2.append(shown.as_str());
                    l2.append(".");
                    messages.push((l2, Color::Black));
                } else {
                    let mut l2 = String::from_str("             修改日期不在考试时间范围内 ");
                    l2.append(shown.as_str());
                    l2.append(".");
                    messages.push((l2, Color::Red));
                }
            },
            None => {
                messages.push((String::from_str("             文件没有修改日期记录."), Color::Yellow));
            },
        }
        proof {
            assert(lines_of(messages@) =~= base + problem_block_lines(p, start_time, end_time));
        }
    } else {
        messages.push((String::from_str("    找到多个源代码文件:"), Color::Red));
        let ghost base2 = lines_of(messages@);
        proof {
            assert(base2 =~= base.push(("题目 "@ + p.name + ": "@, Color::Black)).push(
                ("    找到多个源代码文件:"@, Color::Red),
            ));
        }
        let mut j: usize = 0;
        while j < n_files
            invariant
                n_files == prob.existing_files@.len(),
                j <= n_files,
                p == pv(*prob),
                p.files.len() == n_files,
                lines_of(messages@) == base2 + file_list_lines(p.files.take(j as int)),
            decreases n_files - j,
        {
            let f = &prob.existing_files[j];
            let mut l = String::from_str("        ");
            l.append(f.path.as_str());
            let ghost pre = messages@;
            messages.push((l, Color::Red));
            proof {
                let t1 = p.files.take(j + 1);
                assert(t1.drop_last() =~= p.files.take(j as int));
                assert(t1.last() == p.files[j as int]);
                assert(p.files[j as int] == fe_view(prob.existing_files@[j as int]));
                assert(l@ == "        "@ + p.files[j as int].path);
                assert(lines_of(pre.push((l, Color::Red))) =~= lines_of(pre).push(
                    (l@, Color::Red),
                ));
                assert(file_list_lines(t1) == file_list_lines(p.files.take(j as int)).push(
                    ("        "@ + p.files[j as int].path, Color::Red),
                ));
                assert(lines_of(messages@) =~= base2 + file_list_lines(t1));
            }
            j = j + 1;
        }
        proof {
            assert(p.files.take(n_files as int) =~= p.files);
            assert(lines_of(messages@) =~= base + problem_block_lines(p, start_time, end_time));
        }
    }
}

/// Build the whole report.  The contestant directory is resolved from the
/// root listing; zero or several candidates stop the run with no report
/// lines.  With exactly one, the walked files are matched to the problems
/// and each problem gets its block; then the ledger, where present, is
/// compared, and where absent a warning closes the report.
pub fn build_message(
    messages: &mut Vec<(String, Color)>,
    cfg: Contestant,
    root_entries: &Vec<RootEntry>,
    entries: &Vec<ScanEntry>,
    ledger: &Option<Vec<u8>>,
) -> (r: Result<(), CSPError>)
    ensures
        matching_dir_names(root_entries@, regex_view(cfg.regex)).len() == 0 ==> (r matches Err(e)
            && e is NoValidContestantDir) && final(messages)@ == old(messages)@,
        matching_dir_names(root_entries@, regex_view(cfg.regex)).len() > 1 ==> (r matches Err(e)
            && e matches CSPError::MultipleContestantDir(s) && s@ == multiple_dirs_text(
            cfg.root_path@,
            matching_dir_names(root_entries@, regex_view(cfg.regex)),
        )) && final(messages)@ == old(messages)@,
        matching_dir_names(root_entries@, regex_view(cfg.regex)).len() == 1 ==> ({
            let id = matching_dir_names(root_entries@, regex_view(cfg.regex))[0];
            let user_dir = join_path_spec(cfg.root_path@, id);
            let prefix = lines_of(old(messages)@) + report_prefix(cfg, root_entries@, entries@);
            let views = scanned_pvs(cfg.problems@, user_dir, entries@);
            match *ledger {
                None => r is Ok && lines_of(final(messages)@) == prefix.push(no_ledger_line(id)),
                Some(bytes) => match csv_rows(bytes@) {
                    Some(rows) => if rows_wf(rows) {
                        r is Ok && lines_of(final(messages)@) == prefix.push(loading_line())
                            + ledger_lines(rows, id, views)
                    } else {
                        (r matches Err(e) && e is FailedToLoadCsv) && lines_of(final(messages)@)
                            == prefix.push(loading_line())
                    },
                    None => (r matches Err(e) && e is FailedToLoadCsv) && lines_of(
                        final(messages)@,
                    ) == prefix.push(loading_line()),
                },
            }
        }),
{
    let ghost m = matching_dir_names(root_entries@, regex_view(cfg.regex));
    let id = match find_contestant_dir(&cfg, root_entries) {
        Err(e) => {
            return Err(e);
        },
        Ok(id) => id,
    };
    proof {
        assert(m.len() == 1 && id@ == m[0]);
    }
    let ghost base = lines_of(old(messages)@);
    let mut header = String::from_str("找到选手目录： ");
    header.append(id.as_str());
    header.append(", 请确认是否与准考证号一致.");
    messages.push((header, Color::Yellow));
    proof {
        assert(lines_of(messages@) =~= base.push(found_dir_line(id@)));
    }
    let user_dir = join_path(cfg.root_path.as_str(), id.as_str());
    let ghost cfg0 = cfg;
    let mut cfg = cfg;
    let ghost problems0 = cfg.problems@;
    scan_files(&mut cfg.problems, user_dir.as_str(), entries);
    let ghost views = scanned_pvs(problems0, user_dir@, entries@);
    proof {
        assert forall|k: int| 0 <= k < cfg.problems@.len() implies #[trigger] pv(
            cfg.problems@[k],
        ) == views[k] by {
            assert(pv(cfg.problems@[k]) =~= views[k]);
        }
    }
    let ghost base2 = lines_of(messages@);
    let n_p = cfg.problems.len();
    let mut k: usize = 0;
    while k < n_p
        invariant
            n_p == cfg.problems@.len(),
            k <= n_p,
            views.len() == n_p,
            forall|k2: int| 0 <= k2 < n_p ==> #[trigger] pv(cfg.problems@[k2]) == views[k2],
            lines_of(messages@) == base2 + blocks_lines(
                views.take(k as int),
                cfg.start_time,
                cfg.end_time,
            ),
        decreases n_p - k,
    {
        let prob = &cfg.problems[k];
        problem_block(messages, prob, cfg.start_time, cfg.end_time);
        proof {
            let t1 = views.take(k + 1);
            assert(t1.drop_last() =~= views.take(k as int));
            assert(t1.last() == views[k as int]);
            assert(lines_of(messages@) =~= base2 + blocks_lines(
                t1,
                cfg.start_time,
                cfg.end_time,
            ));
        }
        k = k + 1;
    }
    proof {
        assert(views.take(n_p as int) =~= views);
        assert(lines_of(messages@) == base + report_prefix(cfg0, root_entries@, entries@));
    }
    match ledger {
        Some(bytes) => {
            let outcome = compare_ledger(messages, &cfg.problems, &id, bytes);
            proof {
                assert(crate::config::pvs(cfg.problems@) =~= views);
            }
            match outcome {
                Ok(()) => Ok(()),
                Err(e) => Err(e),
            }
        },
        None => {
            let mut l = String::from_str("未找到校验目录的匹配项: ");
            l.append(id.as_str());
            messages.push((l, Color::Yellow));
            proof {
                assert(lines_of(messages@) =~= (base + report_prefix(
                    cfg0,
                    root_entries@,
                    entries@,
                )).push(no_ledger_line(id@)));
            }
            Ok(())
        },
    }
}

} // verus!
