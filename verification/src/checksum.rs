//! Content digests for submitted files.
//!
//! The digest is the MD5 hash of the file's bytes, rendered as 32 lowercase
//! hexadecimal digits — the format the checksum ledger records.  The hash
//! itself comes from the `md5` crate; the hexadecimal rendering is proved
//! here.

use vstd::prelude::*;

use crate::config::FileView;

verus! {

/// The 16-byte MD5 digest of a byte sequence.
pub uninterp spec fn md5_digest(bytes: Seq<u8>) -> Seq<u8>;

/// Relies on `md5::compute`: the digest is a function of the input bytes
/// alone and is 16 bytes long.
#[verifier::external_body]
fn md5_compute(bytes: &Vec<u8>) -> (r: Vec<u8>)
    ensures
        r@ == md5_digest(bytes@),
        r@.len() == 16,
{
    md5::compute(bytes).0.to_vec()
}

/// The sixteen lowercase hexadecimal digits.
pub open spec fn hex_digits() -> Seq<char> {
    seq!['0', '1', '2', '3', '4', '5', '6', '7', '8', '9', 'a', 'b', 'c', 'd', 'e', 'f']
}

/// Lowercase hexadecimal rendering of bytes, two digits per byte.
pub open spec fn to_hex_lower(bytes: Seq<u8>) -> Seq<char>
    decreases bytes.len(),
{
    if bytes.len() == 0 {
        Seq::empty()
    } else {
        seq![
            hex_digits()[bytes.first() as int / 16],
            hex_digits()[bytes.first() as int % 16],
        ] + to_hex_lower(bytes.drop_first())
    }
}

/// The digest text of a file's bytes: its MD5 hash in lowercase hex.
pub open spec fn md5_hex(bytes: Seq<u8>) -> Seq<char> {
    to_hex_lower(md5_digest(bytes))
}

/// The digest text the report shows for a matched file: the hash of its
/// bytes, or the text describing why they could not be read.
pub open spec fn digest_text_v(f: FileView) -> Seq<char> {
    match f.content {
        Ok(b) => md5_hex(b),
        Err(m) => m,
    }
}

/// The hexadecimal digit of a value below sixteen, as a one-character
/// string slice.
fn hex_digit_str(b: u8) -> (r: &'static str)
    requires
        b < 16,
    ensures
        r@ == seq![hex_digits()[b as int]],
{
    proof {
        reveal_strlit("0");
        reveal_strlit("1");
        reveal_strlit("2");
        reveal_strlit("3");
        reveal_strlit("4");
        reveal_strlit("5");
        reveal_strlit("6");
        reveal_strlit("7");
        reveal_strlit("8");
        reveal_strlit("9");
        reveal_strlit("a");
        reveal_strlit("b");
        reveal_strlit("c");
        reveal_strlit("d");
        reveal_strlit("e");
        reveal_strlit("f");
    }
    let r = match b {
        0 => "0",
        1 => "1",
        2 => "2",
        3 => "3",
        4 => "4",
        5 => "5",
        6 => "6",
        7 => "7",
        8 => "8",
        9 => "9",
        10 => "a",
        11 => "b",
        12 => "c",
        13 => "d",
        14 => "e",
        _ => "f",
    };
    proof {
        assert(r@ =~= seq![hex_digits()[b as int]]);
    }
    r
}

/// Render bytes as lowercase hexadecimal, two digits per byte.
fn bytes_to_hex(bytes: &Vec<u8>) -> (r: String)
    ensures
        r@ == to_hex_lower(bytes@),
{
    let mut out = String::new();
    let n = bytes.len();
    let mut i: usize = 0;
    proof {
        assert(bytes@.skip(0) == bytes@);
    }
    while i < n
        invariant
            n == bytes@.len(),
            i <= n,
            to_hex_lower(bytes@) == out@ + to_hex_lower(bytes@.skip(i as int)),
        decreases n - i,
    {
        let b = bytes[i];
        out.append(hex_digit_str(b / 16));
        out.append(hex_digit_str(b % 16));
        proof {
            let rest = bytes@.skip(i as int);
            assert(rest.drop_first() =~= bytes@.skip(i + 1));
            assert(rest.first() == bytes@[i as int]);
            assert(to_hex_lower(bytes@) =~= out@ + to_hex_lower(bytes@.skip(i + 1)));
        }
        i = i + 1;
    }
    proof {
        assert(to_hex_lower(bytes@.skip(n as int)) == Seq::<char>::empty());
        assert(out@ =~= to_hex_lower(bytes@));
    }
    out
}

/// Compute the digest text of a file's content, handed in as either its
/// bytes or the text describing why it could not be read.  An unreadable
/// file degrades to that text as an `Err`; it never aborts the caller.
pub fn try_crc32(content: &Result<Vec<u8>, String>) -> (r: Result<String, String>)
    ensures
        content matches Ok(bytes) ==> (r matches Ok(h) && h@ == md5_hex(bytes@)),
        content matches Err(m) ==> (r matches Err(t) && t@ == m@),
{
    match content {
        Ok(bytes) => {
            let digest = md5_compute(bytes);
            Ok(bytes_to_hex(&digest))
        },
        Err(m) => Err(m.clone()),
    }
}

/// Collapse a `Result` whose two sides carry the same type.
pub fn result_into_ok_or_err<T>(r: Result<T, T>) -> (v: T)
    ensures
        r matches Ok(x) ==> v == x,
        r matches Err(x) ==> v == x,
{
    match r {
        Ok(v) => v,
        Err(v) => v,
    }
}

} // verus!
