//! The error taxonomy of the pipeline.
//!
//! The first five variants and `FailedToLoadCsv` are fatal: the pipeline
//! stops and the presenter receives a single error line.  Unreadable
//! submission files are recovered per problem and never reach this type.

use vstd::prelude::*;

verus! {

/// A fatal failure of the verification pipeline.  String payloads carry the
/// text of the underlying cause, already rendered by the caller.
#[derive(Debug)]
pub enum CSPError {
    /// The configuration file could not be opened.
    ConfigNotExist(String),
    /// The configuration file could not be parsed.
    ConfigCannotParse(String),
    /// The configured root directory or a file in it could not be read.
    RootDirAccessFail(String),
    /// No directory under the root matches the contestant regex.
    NoValidContestantDir,
    /// More than one directory matches; the payload lists them.
    MultipleContestantDir(String),
    /// The checksum ledger could not be parsed.
    FailedToLoadCsv,
    /// Any other unexpected failure, rendered by the caller.
    Unknown(String),
}

/// The diagnostic text shown for each fatal error.
pub open spec fn error_text(e: CSPError) -> Seq<char> {
    match e {
        CSPError::ConfigNotExist(c) => "错误 1, checker.cfg.json 不存在, 请联系监考员.\n("@ + c@ + ")"@,
        CSPError::ConfigCannotParse(c) => "错误 2, checker.cfg.json 无法解析, 请联系监考员.\n("@ + c@ + ")"@,
        CSPError::RootDirAccessFail(c) => "错误 2，checker.cfg.json 配置的根目录或其中文件无法访问，请联系监考员.\n("@ + c@ + ")"@,
        CSPError::NoValidContestantDir => "错误 3, 没有找到有效的选手目录. 请阅读考生须知."@,
        CSPError::MultipleContestantDir(list) => "错误 4, 找到多个选手目录.\n"@ + list@,
        CSPError::FailedToLoadCsv => "无法解析 CSV 文件"@,
        CSPError::Unknown(c) => "程序内部错误，请联系监考员.\n("@ + c@ + ")"@,
    }
}

impl CSPError {
    /// The user-visible diagnostic message for this error.
    pub fn message(&self) -> (r: String)
        ensures
            r@ == error_text(*self),
    {
        match self {
            CSPError::ConfigNotExist(c) => {
                let mut s = String::from_str("错误 1, checker.cfg.json 不存在, 请联系监考员.\n(");
                s.append(c.as_str());
                s.append(")");
                s
            },
            CSPError::ConfigCannotParse(c) => {
                let mut s = String::from_str("错误 2, checker.cfg.json 无法解析, 请联系监考员.\n(");
                s.append(c.as_str());
                s.append(")");
                s
            },
            CSPError::RootDirAccessFail(c) => {
                let mut s = String::from_str("错误 2，checker.cfg.json 配置的根目录或其中文件无法访问，请联系监考员.\n(");
                s.append(c.as_str());
                s.append(")");
                s
            },
            CSPError::NoValidContestantDir => {
                String::from_str("错误 3, 没有找到有效的选手目录. 请阅读考生须知.")
            },
            CSPError::MultipleContestantDir(list) => {
                let mut s = String::from_str("错误 4, 找到多个选手目录.\n");
                s.append(list.as_str());
                s
            },
            CSPError::FailedToLoadCsv => String::from_str("无法解析 CSV 文件"),
            CSPError::Unknown(c) => {
                let mut s = String::from_str("程序内部错误，请联系监考员.\n(");
                s.append(c.as_str());
                s.append(")");
                s
            },
        }
    }
}

} // verus!
