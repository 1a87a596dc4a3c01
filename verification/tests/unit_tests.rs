use ccf_checker::checksum::{result_into_ok_or_err, try_crc32};
use ccf_checker::config::normalize_separators;
use ccf_checker::errors::CSPError;
use ccf_checker::timefmt::format_timestamp;

#[test]
fn checksum_of_empty_bytes() {
    let r = try_crc32(&Ok(Vec::new()));
    assert_eq!(r, Ok(String::from("d41d8cd98f00b204e9800998ecf8427e")));
}

#[test]
fn checksum_of_known_bytes() {
    let r = try_crc32(&Ok(b"hello world".to_vec()));
    assert_eq!(r, Ok(String::from("5eb63bbbe01eeed093cb22bb8f5acdc3")));
}

#[test]
fn checksum_matches_md5_crate_rendering() {
    let bytes = b"some submission source".to_vec();
    let expected = format!("{:x}", md5::compute(&bytes));
    assert_eq!(try_crc32(&Ok(bytes)), Ok(expected));
}

#[test]
fn checksum_deterministic_and_idempotent() {
    let bytes = b"int main() { return 0; }".to_vec();
    let first = try_crc32(&Ok(bytes.clone()));
    let second = try_crc32(&Ok(bytes));
    assert_eq!(first, second);
    assert_eq!(first, Ok(String::from("1ea1f4efbdd7db2380d7f4fa7b11048d")));
}

#[test]
fn checksum_changes_when_a_byte_changes() {
    let a = try_crc32(&Ok(b"int main() { return 0; }".to_vec())).unwrap();
    let b = try_crc32(&Ok(b"int main() { return 1; }".to_vec())).unwrap();
    assert_ne!(a, b);
    assert_eq!(b, String::from("852d28394aa63353e6a5c2b57e4b2b31"));
}

#[test]
fn checksum_of_unreadable_content_degrades_to_text() {
    let r = try_crc32(&Err(String::from("无法读取文件内容:oops")));
    assert_eq!(r, Err(String::from("无法读取文件内容:oops")));
    assert_eq!(result_into_ok_or_err(r), String::from("无法读取文件内容:oops"));
}

#[test]
fn result_collapse_keeps_either_side() {
    assert_eq!(result_into_ok_or_err::<u32>(Ok(7)), 7);
    assert_eq!(result_into_ok_or_err::<u32>(Err(9)), 9);
}

#[test]
fn normalize_turns_double_backslash_into_slash() {
    assert_eq!(normalize_separators("qa\\\\math\\..*"), String::from("qa/math\\..*"));
    assert_eq!(normalize_separators("plain"), String::from("plain"));
    assert_eq!(normalize_separators(""), String::from(""));
    assert_eq!(normalize_separators("\\\\\\\\"), String::from("//"));
    assert_eq!(normalize_separators("a\\\\b\\\\c"), String::from("a/b/c"));
}

#[test]
fn timestamp_rendering_matches_chrono() {
    assert_eq!(format_timestamp(0), String::from("1970-01-01 00:00:00 UTC"));
    let t = 1_700_000_000_000_000i64;
    let expected = format!(
        "{}",
        chrono::DateTime::<chrono::Utc>::from_timestamp_micros(t).unwrap()
    );
    assert_eq!(format_timestamp(t), expected);
}

#[test]
fn error_messages_are_the_localized_diagnostics() {
    assert_eq!(
        CSPError::ConfigNotExist(String::from("why")).message(),
        String::from("错误 1, checker.cfg.json 不存在, 请联系监考员.\n(why)")
    );
    assert_eq!(
        CSPError::ConfigCannotParse(String::from("bad json")).message(),
        String::from("错误 2, checker.cfg.json 无法解析, 请联系监考员.\n(bad json)")
    );
    assert_eq!(
        CSPError::RootDirAccessFail(String::from("denied")).message(),
        String::from("错误 2，checker.cfg.json 配置的根目录或其中文件无法访问，请联系监考员.\n(denied)")
    );
    assert_eq!(
        CSPError::NoValidContestantDir.message(),
        String::from("错误 3, 没有找到有效的选手目录. 请阅读考生须知.")
    );
    assert_eq!(
        CSPError::MultipleContestantDir(String::from("    \"r/1\"")).message(),
        String::from("错误 4, 找到多个选手目录.\n    \"r/1\"")
    );
    assert_eq!(CSPError::FailedToLoadCsv.message(), String::from("无法解析 CSV 文件"));
    assert_eq!(
        CSPError::Unknown(String::from("oops")).message(),
        String::from("程序内部错误，请联系监考员.\n(oops)")
    );
}
