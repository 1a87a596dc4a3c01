//! Properties of the pipeline, stated once and proved for all inputs.

use vstd::prelude::*;

use crate::checksum::md5_hex;
use crate::config::{Contestant, ProblemView, RootEntry};
use crate::ledger::{ledger_expected, ledger_line, real_hash_v, sentinel};
use crate::patterns::regex_accepts;
use crate::pipeline::ts_valid;
use crate::report::Color;
use crate::scanner::matching_dir_names;

verus! {

/// Every candidate contestant identifier is the name, relative to the
/// root, of a listed directory that matches the contestant regex.  With
/// exactly one candidate, the identifier the pipeline derives is therefore
/// that directory's name.
pub proof fn lemma_identifier_is_a_matching_dir_name(
    entries: Seq<RootEntry>,
    rv: Seq<char>,
    k: int,
)
    requires
        0 <= k < matching_dir_names(entries, rv).len(),
    ensures
        exists|i: int|
            0 <= i < entries.len() && (#[trigger] entries[i]).is_dir && regex_accepts(
                rv,
                entries[i].name@,
            ) && matching_dir_names(entries, rv)[k] == entries[i].name@,
    decreases entries.len(),
{
    let sub = entries.drop_last();
    let e = entries.last();
    let init = matching_dir_names(sub, rv);
    if e.is_dir && regex_accepts(rv, e.name@) && k == init.len() {
        assert(entries[entries.len() - 1] == e);
        assert(matching_dir_names(entries, rv)[k] == e.name@);
    } else {
        lemma_identifier_is_a_matching_dir_name(sub, rv, k);
        let i = choose|i: int|
            0 <= i < sub.len() && (#[trigger] sub[i]).is_dir && regex_accepts(rv, sub[i].name@)
                && matching_dir_names(sub, rv)[k] == sub[i].name@;
        assert(entries[i] == sub[i]);
        assert(matching_dir_names(entries, rv)[k] == entries[i].name@);
    }
}

/// Checksum computation is deterministic and idempotent: equal byte
/// contents always yield the same digest text, however often it is
/// computed.
pub proof fn lemma_checksum_deterministic(b1: Seq<u8>, b2: Seq<u8>)
    requires
        b1 == b2,
    ensures
        md5_hex(b1) == md5_hex(b2),
{
}

/// Timestamp validation is inclusive at both ends: under the configuration
/// invariant, a file modified exactly at the start or the end of the exam
/// window is valid, and one microsecond outside either bound is not.
pub proof fn lemma_window_bounds_inclusive(cfg: Contestant)
    requires
        cfg.wf(),
    ensures
        ts_valid(cfg.start_time, cfg.start_time, cfg.end_time),
        ts_valid(cfg.end_time, cfg.start_time, cfg.end_time),
        cfg.start_time > i64::MIN ==> !ts_valid(
            (cfg.start_time - 1) as i64,
            cfg.start_time,
            cfg.end_time,
        ),
        cfg.end_time < i64::MAX ==> !ts_valid(
            (cfg.end_time + 1) as i64,
            cfg.start_time,
            cfg.end_time,
        ),
{
}

/// Where no ledger row names this contestant and problem, the expected
/// checksum is the "file not present" value.
pub proof fn lemma_no_row_gives_sentinel(rows: Seq<Seq<Seq<char>>>, id: Seq<char>, name: Seq<char>)
    requires
        forall|i: int|
            #![trigger rows[i]]
            0 <= i < rows.len() ==> !(rows[i][0] == id && rows[i][1] == name),
    ensures
        ledger_expected(rows, id, name) == sentinel(),
    decreases rows.len(),
{
    if rows.len() > 0 {
        assert(!(rows[0][0] == id && rows[0][1] == name));
        assert forall|i: int|
            #![trigger rows.skip(1)[i]]
            0 <= i < rows.skip(1).len() implies !(rows.skip(1)[i][0] == id && rows.skip(1)[i][1]
            == name) by {
            assert(rows.skip(1)[i] == rows[i + 1]);
        }
        lemma_no_row_gives_sentinel(rows.skip(1), id, name);
    }
}

/// Ledger comparison is symmetric to absence: a problem with no matched
/// file and no ledger row compares the "file not present" value with
/// itself and yields a Success line, not a mismatch.
pub proof fn lemma_absent_matches_absent(rows: Seq<Seq<Seq<char>>>, id: Seq<char>, p: ProblemView)
    requires
        p.files.len() == 0,
        forall|i: int|
            #![trigger rows[i]]
            0 <= i < rows.len() ==> !(rows[i][0] == id && rows[i][1] == p.name),
    ensures
        ledger_line(rows, id, p).1 == Color::Green,
        ledger_line(rows, id, p).0 == "题目 "@ + p.name + " 校验通过: "@ + sentinel() + "."@,
{
    lemma_no_row_gives_sentinel(rows, id, p.name);
    assert(real_hash_v(p) == sentinel());
}

} // verus!
