//! Cross-checking computed checksums against the checksum ledger.
//!
//! The ledger is a headerless CSV file, one row per (contestant, problem):
//! `contestant_id, problem_name, checksum, room_id, seat_id`; room and seat
//! are carried but unused.  A malformed ledger fails the whole comparison —
//! it is a trust anchor, and partial parsing risks silent omissions.  A
//! problem without a matched file and a pair without a ledger row both
//! stand for the same "file not present" value, so absence compares equal
//! to absence.

use vstd::prelude::*;

use crate::checksum::{digest_text_v, result_into_ok_or_err, try_crc32};
use crate::config::{Problem, ProblemView, pv, pvs};
use crate::errors::CSPError;
use crate::report::{Color, lines_of};

verus! {

/// What headerless CSV parsing yields on these bytes: the rows, each a list
/// of fields, or `None` where the bytes are not well-formed CSV.  A
/// function of the bytes alone.
pub uninterp spec fn csv_rows(bytes: Seq<u8>) -> Option<Seq<Seq<Seq<char>>>>;

/// Relies on `csv::ReaderBuilder` reading without headers: the records are
/// a function of the bytes alone; any record error fails the whole parse.
#[verifier::external_body]
fn parse_csv(bytes: &Vec<u8>) -> (r: Option<Vec<Vec<String>>>)
    ensures
        r matches Some(rows) ==> csv_rows(bytes@) == Some(rows.deep_view()),
        r is None ==> csv_rows(bytes@) is None,
{
    let mut rdr = csv::ReaderBuilder::new().has_headers(false).from_reader(bytes.as_slice());
    let mut rows: Vec<Vec<String>> = Vec::new();
    for record in rdr.records() {
        match record {
            Ok(rec) => rows.push(rec.iter().map(|f| f.to_string()).collect()),
            Err(_) => return None,
        }
    }
    Some(rows)
}

/// The value standing for an absent file or an absent ledger row.
pub open spec fn sentinel() -> Seq<char> {
    "文件不存在"@
}

/// Every ledger row carries at least contestant id, problem name and
/// checksum.
pub open spec fn rows_wf(rows: Seq<Seq<Seq<char>>>) -> bool {
    forall|i: int| #![trigger rows[i]] 0 <= i < rows.len() ==> rows[i].len() >= 3
}

/// The checksum the ledger expects for a contestant and a problem: the
/// third field of the first row naming both, or the "file not present"
/// value where no row does.
pub open spec fn ledger_expected(rows: Seq<Seq<Seq<char>>>, id: Seq<char>, name: Seq<char>) -> Seq<
    char,
>
    decreases rows.len(),
{
    if rows.len() == 0 {
        sentinel()
    } else if rows[0][0] == id && rows[0][1] == name {
        rows[0][2]
    } else {
        ledger_expected(rows.skip(1), id, name)
    }
}

/// The checksum actually computed for a problem: the digest text of its
/// first matched file, or the "file not present" value where none matched.
pub open spec fn real_hash_v(p: ProblemView) -> Seq<char> {
    if p.files.len() == 0 {
        sentinel()
    } else {
        digest_text_v(p.files[0])
    }
}

/// The report line the ledger comparison yields for one problem.
pub open spec fn ledger_line(rows: Seq<Seq<Seq<char>>>, id: Seq<char>, p: ProblemView) -> (Seq<
    char,
>, Color) {
    let actual = real_hash_v(p);
    let expected = ledger_expected(rows, id, p.name);
    if actual == expected {
        ("题目 "@ + p.name + " 校验通过: "@ + expected + "."@, Color::Green)
    } else {
        (
            "题目 "@ + p.name + " 校验值不匹配: found "@ + actual + ", expected "@ + expected + "."@,
            Color::Red,
        )
    }
}

/// The report lines of the ledger comparison, one per problem, in
/// configuration order.
pub open spec fn ledger_lines(rows: Seq<Seq<Seq<char>>>, id: Seq<char>, ps: Seq<ProblemView>) -> Seq<
    (Seq<char>, Color),
>
    decreases ps.len(),
{
    if ps.len() == 0 {
        Seq::empty()
    } else {
        ledger_lines(rows, id, ps.drop_last()).push(ledger_line(rows, id, ps.last()))
    }
}

/// The line announcing that the ledger is being loaded.
pub open spec fn loading_line() -> (Seq<char>, Color) {
    ("正在加载比对校验文件."@, Color::Yellow)
}

/// Look up the checksum the ledger expects for this contestant and
/// problem.
fn lookup_expected(rows: &Vec<Vec<String>>, student_id: &String, name: &String) -> (r: String)
    requires
        rows_wf(rows.deep_view()),
    ensures
        r@ == ledger_expected(rows.deep_view(), student_id@, name@),
{
    let n = rows.len();
    let mut i: usize = 0;
    proof {
        assert(rows.deep_view().skip(0) == rows.deep_view());
        assert(rows.deep_view().len() == n);
    }
    while i < n
        invariant
            n == rows@.len(),
            n == rows.deep_view().len(),
            i <= n,
            rows_wf(rows.deep_view()),
            ledger_expected(rows.deep_view(), student_id@, name@) == ledger_expected(
                rows.deep_view().skip(i as int),
                student_id@,
                name@,
            ),
        decreases n - i,
    {
        let row = &rows[i];
        proof {
            let dv = rows.deep_view();
            assert(dv[i as int] == rows@[i as int].deep_view());
            assert(dv[i as int].len() >= 3);
            assert(rows@[i as int].deep_view().len() == rows@[i as int]@.len());
        }
        let id_match = row[0].eq(student_id);
        let name_match = row[1].eq(name);
        proof {
            let dv = rows.deep_view();
            let rest = dv.skip(i as int);
            assert(rest[0] == dv[i as int]);
            assert(dv[i as int][0] == rows@[i as int]@[0]@);
            assert(dv[i as int][1] == rows@[i as int]@[1]@);
            assert(dv[i as int][2] == rows@[i as int]@[2]@);
            assert(rest.skip(1) =~= dv.skip(i + 1));
        }
        if id_match && name_match {
            return row[2].clone();
        }
        i = i + 1;
    }
    proof {
        assert(rows.deep_view().skip(n as int) =~= Seq::<Seq<Seq<char>>>::empty());
    }
    String::from_str("文件不存在")
}

/// The checksum computed for this problem, as the report shows it.
fn real_hash(p: &Problem) -> (r: String)
    ensures
        r@ == real_hash_v(pv(*p)),
{
    if p.existing_files.len() == 0 {
        String::from_str("文件不存在")
    } else {
        let first = &p.existing_files[0];
        proof {
            assert(pv(*p).files[0] == crate::config::fe_view(p.existing_files@[0]));
        }
        result_into_ok_or_err(try_crc32(&first.content))
    }
}

/// Compare every problem's computed checksum against the ledger, in
/// configuration order, appending one Success or Error line per problem.
/// An unparsable ledger fails the whole comparison after the loading
/// announcement.
pub fn compare_ledger(
    messages: &mut Vec<(String, Color)>,
    problems: &Vec<Problem>,
    student_id: &String,
    bytes: &Vec<u8>,
) -> (r: Result<(), CSPError>)
    ensures
        csv_rows(bytes@) is None ==> (r matches Err(e) && e is FailedToLoadCsv) && lines_of(
            final(messages)@,
        ) == lines_of(old(messages)@).push(loading_line()),
        csv_rows(bytes@) matches Some(rows) ==> {
            if rows_wf(rows) {
                r is Ok && lines_of(final(messages)@) == lines_of(old(messages)@).push(
                    loading_line(),
                ) + ledger_lines(rows, student_id@, pvs(problems@))
            } else {
                (r matches Err(e) && e is FailedToLoadCsv) && lines_of(final(messages)@)
                    == lines_of(old(messages)@).push(loading_line())
            }
        },
{
    messages.push((String::from_str("正在加载比对校验文件."), Color::Yellow));
    proof {
        assert(lines_of(messages@) =~= lines_of(old(messages)@).push(loading_line()));
    }
    let rows = match parse_csv(bytes) {
        Some(rows) => rows,
        None => {
            return Err(CSPError::FailedToLoadCsv);
        },
    };
    let ghost dv = rows.deep_view();
    let n_rows = rows.len();
    let mut i: usize = 0;
    proof {
        assert(dv.len() == n_rows);
    }
    while i < n_rows
        invariant
            n_rows == rows@.len(),
            n_rows == dv.len(),
            dv == rows.deep_view(),
            i <= n_rows,
            csv_rows(bytes@) == Some(dv),
            lines_of(messages@) == lines_of(old(messages)@).push(loading_line()),
            forall|i2: int| #![trigger dv[i2]] 0 <= i2 < i ==> dv[i2].len() >= 3,
        decreases n_rows - i,
    {
        proof {
            assert(dv[i as int] == rows@[i as int].deep_view());
            assert(rows@[i as int].deep_view().len() == rows@[i as int]@.len());
        }
        if rows[i].len() < 3 {
            proof {
                assert(dv[i as int].len() < 3);
                assert(!rows_wf(dv));
            }
            return Err(CSPError::FailedToLoadCsv);
        }
        i = i + 1;
    }
    proof {
        assert(rows_wf(dv));
    }
    let ghost base = lines_of(messages@);
    let n_p = problems.len();
    let mut k: usize = 0;
    while k < n_p
        invariant
            n_p == problems@.len(),
            k <= n_p,
            dv == rows.deep_view(),
            rows_wf(dv),
            csv_rows(bytes@) == Some(dv),
            base == lines_of(old(messages)@).push(loading_line()),
            lines_of(messages@) == base + ledger_lines(dv, student_id@, pvs(problems@).take(
                k as int,
            )),
        decreases n_p - k,
    {
        let prob = &problems[k];
        let actual = real_hash(prob);
        let expected = lookup_expected(&rows, student_id, &prob.name);
        let line =
            if actual == expected {
                let mut s = String::from_str("题目 ");
                s.append(prob.name.as_str());
                s.append(" 校验通过: ");
                s.append(expected.as_str());
                s.append(".");
                (s, Color::Green)
            } else {
                let mut s = String::from_str("题目 ");
                s.append(prob.name.as_str());
                s.append(" 校验值不匹配: found ");
                s.append(actual.as_str());
                s.append(", expected ");
                s.append(expected.as_str());
                s.append(".");
                (s, Color::Red)
            };
        let ghost pre = messages@;
        messages.push(line);
        proof {
            let views = pvs(problems@);
            let t1 = views.take(k + 1);
            assert(t1.drop_last() =~= views.take(k as int));
            assert(t1.last() == views[k as int]);
            assert(views[k as int] == pv(problems@[k as int]));
            assert(line.0@ == ledger_line(dv, student_id@, views[k as int]).0);
            assert(line.1 == ledger_line(dv, student_id@, views[k as int]).1);
            assert(messages@ == pre.push(line));
            assert(lines_of(pre.push(line)) =~= lines_of(pre).push((line.0@, line.1)));
            assert(ledger_lines(dv, student_id@, t1) == ledger_lines(
                dv,
                student_id@,
                views.take(k as int),
            ).push(ledger_line(dv, student_id@, views[k as int])));
            assert(lines_of(messages@) =~= base + ledger_lines(dv, student_id@, t1));
        }
        k = k + 1;
    }
    proof {
        assert(pvs(problems@).take(n_p as int) =~= pvs(problems@));
    }
    Ok(())
}

} // verus!
