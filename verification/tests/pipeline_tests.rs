use ccf_checker::checksum::try_crc32;
use ccf_checker::config::{Contestant, RootEntry, ScanEntry, build_config};
use ccf_checker::errors::CSPError;
use ccf_checker::pipeline::build_message;
use ccf_checker::report::Color;
use ccf_checker::scanner::find_contestant_dir;

const START: i64 = 1_700_000_000_000_000;
const END: i64 = 1_700_000_000_000_000 + 3_600_000_000;

fn config() -> Contestant {
    build_config(
        String::from("root"),
        "^[0-9]+$",
        &vec![(String::from("math"), String::from("math\\..*"))],
        START,
        END,
        1024,
    )
    .unwrap()
}

fn dir(name: &str) -> RootEntry {
    RootEntry { name: String::from(name), is_dir: true }
}

fn file_entry(name: &str) -> RootEntry {
    RootEntry { name: String::from(name), is_dir: false }
}

fn scan(subdir: &str, name: &str, mtime: Option<i64>, content: &[u8]) -> ScanEntry {
    ScanEntry {
        subdir: String::from(subdir),
        name: String::from(name),
        mtime,
        content: Ok(content.to_vec()),
    }
}

fn ts(micros: i64) -> String {
    format!(
        "{}",
        chrono::DateTime::<chrono::Utc>::from_timestamp_micros(micros).unwrap()
    )
}

#[test]
fn identifier_is_the_matching_directory_name() {
    let cfg = config();
    let entries = vec![file_entry("notes.txt"), dir("abc"), dir("12345")];
    let id = find_contestant_dir(&cfg, &entries).unwrap();
    assert_eq!(id, String::from("12345"));
}

#[test]
fn zero_matching_directories_fails_fast() {
    let cfg = config();
    let entries = vec![dir("abc"), file_entry("9999")];
    let mut messages: Vec<(String, Color)> = Vec::new();
    let r = build_message(&mut messages, cfg, &entries, &Vec::new(), &None);
    assert!(matches!(r, Err(CSPError::NoValidContestantDir)));
    assert!(messages.is_empty());
}

#[test]
fn two_matching_directories_fail_fast_with_both_paths() {
    let cfg = config();
    let entries = vec![dir("111"), dir("abc"), dir("222")];
    let mut messages: Vec<(String, Color)> = Vec::new();
    let r = build_message(&mut messages, cfg, &entries, &Vec::new(), &None);
    match r {
        Err(CSPError::MultipleContestantDir(list)) => {
            assert_eq!(list, String::from("    \"root/111\"\n    \"root/222\""));
        }
        other => panic!("unexpected result: {:?}", other),
    }
    assert!(messages.is_empty());
}

#[test]
fn trailing_slash_in_root_is_not_doubled_in_paths() {
    let cfg = build_config(
        String::from("root/"),
        "^[0-9]+$",
        &vec![(String::from("math"), String::from("math\\..*"))],
        START,
        END,
        1024,
    )
    .unwrap();
    let entries = vec![dir("111"), dir("222")];
    let mut messages: Vec<(String, Color)> = Vec::new();
    let r = build_message(&mut messages, cfg, &entries, &Vec::new(), &None);
    match r {
        Err(CSPError::MultipleContestantDir(list)) => {
            assert_eq!(list, String::from("    \"root/111\"\n    \"root/222\""));
        }
        other => panic!("unexpected result: {:?}", other),
    }
}

#[test]
fn single_match_reports_file_and_checksum() {
    let cfg = config();
    let entries = vec![dir("12345")];
    let walked = vec![scan("qa", "math.cpp", Some(START), b"int main() { return 0; }")];
    let mut messages: Vec<(String, Color)> = Vec::new();
    let r = build_message(&mut messages, cfg, &entries, &walked, &None);
    assert!(r.is_ok());
    assert_eq!(
        messages,
        vec![
            (
                String::from("找到选手目录： 12345, 请确认是否与准考证号一致."),
                Color::Yellow
            ),
            (String::from("题目 math: "), Color::Black),
            (
                String::from(
                    "    找到文件 qa/math.cpp => 校验码 1ea1f4efbdd7db2380d7f4fa7b11048d."
                ),
                Color::Black
            ),
            (
                format!("             修改日期有效 {}.", ts(START)),
                Color::Black
            ),
            (String::from("未找到校验目录的匹配项: 12345"), Color::Yellow),
        ]
    );
}

#[test]
fn no_matching_file_reports_not_found() {
    let cfg = config();
    let entries = vec![dir("12345")];
    let walked = vec![scan("qa", "other.txt", Some(START), b"x")];
    let mut messages: Vec<(String, Color)> = Vec::new();
    build_message(&mut messages, cfg, &entries, &walked, &None).unwrap();
    assert_eq!(messages[1], (String::from("题目 math: "), Color::Black));
    assert_eq!(messages[2], (String::from("    未找到源代码文件."), Color::Black));
}

#[test]
fn timestamp_exactly_at_bounds_is_valid() {
    for t in [START, END] {
        let cfg = config();
        let entries = vec![dir("12345")];
        let walked = vec![scan("qa", "math.cpp", Some(t), b"x")];
        let mut messages: Vec<(String, Color)> = Vec::new();
        build_message(&mut messages, cfg, &entries, &walked, &None).unwrap();
        assert_eq!(
            messages[3],
            (format!("             修改日期有效 {}.", ts(t)), Color::Black)
        );
    }
}

#[test]
fn timestamp_one_microsecond_outside_is_invalid() {
    for t in [START - 1, END + 1] {
        let cfg = config();
        let entries = vec![dir("12345")];
        let walked = vec![scan("qa", "math.cpp", Some(t), b"x")];
        let mut messages: Vec<(String, Color)> = Vec::new();
        build_message(&mut messages, cfg, &entries, &walked, &None).unwrap();
        assert_eq!(
            messages[3],
            (
                format!("             修改日期不在考试时间范围内 {}.", ts(t)),
                Color::Red
            )
        );
    }
}

#[test]
fn missing_timestamp_reports_a_warning() {
    let cfg = config();
    let entries = vec![dir("12345")];
    let walked = vec![scan("qa", "math.cpp", None, b"x")];
    let mut messages: Vec<(String, Color)> = Vec::new();
    build_message(&mut messages, cfg, &entries, &walked, &None).unwrap();
    assert_eq!(
        messages[3],
        (String::from("             文件没有修改日期记录."), Color::Yellow)
    );
}

#[test]
fn two_matching_files_report_ambiguity_without_checksum() {
    let cfg = config();
    let entries = vec![dir("12345")];
    let walked = vec![
        scan("qa", "math.cpp", Some(START), b"a"),
        scan("backup", "math.pas", Some(START), b"b"),
    ];
    let mut messages: Vec<(String, Color)> = Vec::new();
    build_message(&mut messages, cfg, &entries, &walked, &None).unwrap();
    assert_eq!(messages[1], (String::from("题目 math: "), Color::Black));
    assert_eq!(messages[2], (String::from("    找到多个源代码文件:"), Color::Red));
    assert_eq!(
        messages[3],
        (String::from("        root/12345/qa/math.cpp"), Color::Red)
    );
    assert_eq!(
        messages[4],
        (String::from("        root/12345/backup/math.pas"), Color::Red)
    );
    for (text, _) in &messages {
        assert!(!text.contains("校验码"));
    }
}

#[test]
fn ledger_with_matching_digest_reports_success() {
    let source = b"int main() { return 0; }";
    let digest = try_crc32(&Ok(source.to_vec())).unwrap();
    let ledger = format!("12345,math,{},R1,S1\n", digest).into_bytes();
    let cfg = config();
    let entries = vec![dir("12345")];
    let walked = vec![scan("qa", "math.cpp", Some(START), source)];
    let mut messages: Vec<(String, Color)> = Vec::new();
    build_message(&mut messages, cfg, &entries, &walked, &Some(ledger)).unwrap();
    assert_eq!(
        messages.last().unwrap(),
        &(format!("题目 math 校验通过: {}.", digest), Color::Green)
    );
}

#[test]
fn ledger_with_different_digest_reports_mismatch() {
    let source = b"int main() { return 0; }";
    let digest = try_crc32(&Ok(source.to_vec())).unwrap();
    let ledger = b"12345,math,deadbeef,R1,S1\n".to_vec();
    let cfg = config();
    let entries = vec![dir("12345")];
    let walked = vec![scan("qa", "math.cpp", Some(START), source)];
    let mut messages: Vec<(String, Color)> = Vec::new();
    build_message(&mut messages, cfg, &entries, &walked, &Some(ledger)).unwrap();
    assert_eq!(
        messages.last().unwrap(),
        &(
            format!("题目 math 校验值不匹配: found {}, expected deadbeef.", digest),
            Color::Red
        )
    );
}

#[test]
fn absent_file_and_absent_ledger_row_compare_equal() {
    let ledger = b"99999,other,aaaa,R1,S1\n".to_vec();
    let cfg = config();
    let entries = vec![dir("12345")];
    let mut messages: Vec<(String, Color)> = Vec::new();
    build_message(&mut messages, cfg, &entries, &Vec::new(), &Some(ledger)).unwrap();
    assert_eq!(
        messages.last().unwrap(),
        &(String::from("题目 math 校验通过: 文件不存在."), Color::Green)
    );
}

#[test]
fn unparsable_ledger_fails_whole_comparison() {
    let ledger = b"a,b,c\nd,e\n".to_vec();
    let cfg = config();
    let entries = vec![dir("12345")];
    let mut messages: Vec<(String, Color)> = Vec::new();
    let r = build_message(&mut messages, cfg, &entries, &Vec::new(), &Some(ledger));
    assert!(matches!(r, Err(CSPError::FailedToLoadCsv)));
    assert_eq!(
        messages.last().unwrap(),
        &(String::from("正在加载比对校验文件."), Color::Yellow)
    );
}

#[test]
fn ledger_row_with_too_few_fields_fails_comparison() {
    let ledger = b"12345,math\n".to_vec();
    let cfg = config();
    let entries = vec![dir("12345")];
    let mut messages: Vec<(String, Color)> = Vec::new();
    let r = build_message(&mut messages, cfg, &entries, &Vec::new(), &Some(ledger));
    assert!(matches!(r, Err(CSPError::FailedToLoadCsv)));
}

#[test]
fn duplicate_ledger_rows_use_the_first() {
    let source = b"int main() { return 0; }";
    let digest = try_crc32(&Ok(source.to_vec())).unwrap();
    let ledger =
        format!("12345,math,{},R1,S1\n12345,math,other,R1,S1\n", digest).into_bytes();
    let cfg = config();
    let entries = vec![dir("12345")];
    let walked = vec![scan("qa", "math.cpp", Some(START), source)];
    let mut messages: Vec<(String, Color)> = Vec::new();
    build_message(&mut messages, cfg, &entries, &walked, &Some(ledger)).unwrap();
    assert_eq!(
        messages.last().unwrap(),
        &(format!("题目 math 校验通过: {}.", digest), Color::Green)
    );
}

#[test]
fn file_matching_several_problems_is_listed_for_each() {
    let cfg = build_config(
        String::from("root"),
        "^[0-9]+$",
        &vec![
            (String::from("math"), String::from("math\\..*")),
            (String::from("any"), String::from(".*\\.cpp")),
        ],
        START,
        END,
        1024,
    )
    .unwrap();
    let entries = vec![dir("12345")];
    let walked = vec![scan("qa", "math.cpp", Some(START), b"x")];
    let mut messages: Vec<(String, Color)> = Vec::new();
    build_message(&mut messages, cfg, &entries, &walked, &None).unwrap();
    let found: Vec<&(String, Color)> =
        messages.iter().filter(|(t, _)| t.contains("找到文件 qa/math.cpp")).collect();
    assert_eq!(found.len(), 2);
}

#[test]
fn unreadable_file_degrades_to_its_error_text() {
    let cfg = config();
    let entries = vec![dir("12345")];
    let walked = vec![ScanEntry {
        subdir: String::from("qa"),
        name: String::from("math.cpp"),
        mtime: Some(START),
        content: Err(String::from("无法读取文件内容:denied")),
    }];
    let mut messages: Vec<(String, Color)> = Vec::new();
    build_message(&mut messages, cfg, &entries, &walked, &None).unwrap();
    assert_eq!(
        messages[2],
        (
            String::from("    找到文件 qa/math.cpp => 校验码 无法读取文件内容:denied."),
            Color::Black
        )
    );
}

#[test]
fn bad_regex_in_configuration_is_rejected() {
    let r = build_config(
        String::from("root"),
        "(",
        &Vec::new(),
        START,
        END,
        1024,
    );
    assert!(r.is_none());
}

#[test]
fn configured_patterns_are_normalized_before_compiling() {
    let cfg = build_config(
        String::from("root"),
        "^[0-9]+$",
        &vec![(String::from("math"), String::from("qa\\\\math\\..*"))],
        START,
        END,
        1024,
    )
    .unwrap();
    let entries = vec![dir("12345")];
    let walked = vec![scan("qa", "math.cpp", Some(START), b"x")];
    let mut messages: Vec<(String, Color)> = Vec::new();
    build_message(&mut messages, cfg, &entries, &walked, &None).unwrap();
    assert!(messages[2].0.contains("找到文件 qa/math.cpp"));
}
