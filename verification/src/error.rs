//! The ways in which a provisioning run can fail.

use vstd::prelude::*;
use vstd::string::StringExecFns;

verus! {

/// What was looked for on a fetched page and not found.
#[derive(Debug, Clone, Copy, PartialEq, Eq, Structural)]
pub enum Lookup {
    /// The number of the latest release, on the downloads page.
    LatestVersion,
    /// The archive's link and hash, on the release page.
    DownloadInfo,
}

/// What went wrong during cleanup.
#[derive(Debug, Clone, Copy, PartialEq, Eq, Structural)]
pub enum Cleaning {
    /// Uninstalling the package manager ended with this exit code.
    Uninstall(Option<i32>),
    /// A directory could not be looked up or removed.
    Removal,
}

/// Why a provisioning run ended without success.
#[derive(Debug, Clone, Copy, PartialEq, Eq, Structural)]
pub enum Error {
    /// The version selector is neither "latest", empty, nor three numbers
    /// separated by dots.
    InvalidVersion,
    /// A fetched page does not hold what was looked for.
    NotFound(Lookup),
    /// The server answered with a status outside 200..=299.
    HttpStatus(u16),
    /// The server announced a length that is not a number.
    InvalidLength,
    /// The downloaded archive does not have the hash that the release page
    /// gives.
    HashMismatch,
    /// The archive could not be unpacked.
    Extraction,
    /// The interpreter's search-path file is not in the tree.
    MissingConfig,
    /// The tree's interpreter did not report a usable version.
    LocalVersion,
    /// Installing the package manager ended with this exit code.
    Bootstrap(Option<i32>),
    /// An install command ended with this exit code.
    Install(Option<i32>),
    /// The compile pass ended with this exit code.
    Compile(Option<i32>),
    /// Listing the installed packages ended with this exit code.
    List(Option<i32>),
    /// Cleanup could not be carried out.
    Cleanup(Cleaning),
    /// The target directory of a fresh run holds something already.
    NonEmptyTarget,
    /// The environment could not carry out a step.
    Io,
    /// A response arrived that does not answer the pending request.
    Unexpected,
}

/// How an exit code reads inside a message.
pub open spec fn status_text(code: Option<i32>) -> Seq<char> {
    match code {
        Some(n) => "exit code: "@ + crate::number::signed_decimal(n as int),
        None => "terminated by a signal"@,
    }
}

/// `head`, the exit status in square brackets.
pub open spec fn with_status(head: Seq<char>, code: Option<i32>) -> Seq<char> {
    head + " ["@ + status_text(code) + "]"@
}

/// The message that a failure is reported with.
pub open spec fn message_of(e: Error) -> Seq<char> {
    match e {
        Error::InvalidVersion => "版本号格式错误"@,
        Error::NotFound(Lookup::LatestVersion) => "找不到版本号"@,
        Error::NotFound(Lookup::DownloadInfo) => "找不到信息"@,
        Error::HttpStatus(code) => "http request failed with status code "@
            + crate::number::decimal(code as nat),
        Error::InvalidLength => "invalid content length"@,
        Error::HashMismatch => "文件哈希不匹配"@,
        Error::Extraction => "解压失败"@,
        Error::MissingConfig => "pth 文件不存在"@,
        Error::LocalVersion => "无法获取本地 python 版本"@,
        Error::Bootstrap(code) => with_status("安装 pip 失败"@, code),
        Error::Install(code) => with_status("安装依赖包失败"@, code),
        Error::Compile(code) => with_status("编译失败"@, code),
        Error::List(code) => with_status("pip list 失败"@, code),
        Error::Cleanup(Cleaning::Uninstall(code)) => with_status("卸载依赖包失败"@, code),
        Error::Cleanup(Cleaning::Removal) => "清理失败"@,
        Error::NonEmptyTarget => "目标目录非空"@,
        Error::Io => "输入输出错误"@,
        Error::Unexpected => "unexpected response"@,
    }
}

fn status_message(head: &str, code: Option<i32>) -> (out: String)
    ensures
        out@ == with_status(head@, code),
{
    let mut out = String::from_str(head);
    out.append(" [");
    match code {
        Some(n) => {
            out.append("exit code: ");
            let digits = crate::number::render_signed(n as i64);
            out.append(crate::text::string_of(digits.as_slice()).as_str());
        },
        None => {
            out.append("terminated by a signal");
        },
    }
    out.append("]");
    assert(out@ =~= with_status(head@, code));
    out
}

impl Error {
    /// The message that this failure is reported with.
    pub fn message(&self) -> (out: String)
        ensures
            out@ == message_of(*self),
    {
        match self {
            Error::InvalidVersion => String::from_str("版本号格式错误"),
            Error::NotFound(Lookup::LatestVersion) => String::from_str("找不到版本号"),
            Error::NotFound(Lookup::DownloadInfo) => String::from_str("找不到信息"),
            Error::HttpStatus(code) => {
                let mut out = String::from_str("http request failed with status code ");
                let digits = crate::number::render(*code as u64);
                out.append(crate::text::string_of(digits.as_slice()).as_str());
                out
            },
            Error::InvalidLength => String::from_str("invalid content length"),
            Error::HashMismatch => String::from_str("文件哈希不匹配"),
            Error::Extraction => String::from_str("解压失败"),
            Error::MissingConfig => String::from_str("pth 文件不存在"),
            Error::LocalVersion => String::from_str("无法获取本地 python 版本"),
            Error::Bootstrap(code) => status_message("安装 pip 失败", *code),
            Error::Install(code) => status_message("安装依赖包失败", *code),
            Error::Compile(code) => status_message("编译失败", *code),
            Error::List(code) => status_message("pip list 失败", *code),
            Error::Cleanup(Cleaning::Uninstall(code)) => status_message("卸载依赖包失败", *code),
            Error::Cleanup(Cleaning::Removal) => String::from_str("清理失败"),
            Error::NonEmptyTarget => String::from_str("目标目录非空"),
            Error::Io => String::from_str("输入输出错误"),
            Error::Unexpected => String::from_str("unexpected response"),
        }
    }
}

} // verus!
