//! What can go wrong in a launcher command, and the message shown for it.
use crate::text::join;
use vstd::prelude::*;
use vstd::string::*;

verus! {

/// Why a launcher command was refused or failed.
#[derive(Debug, PartialEq, Eq)]
pub enum LauncherError {
    /// A state lock was poisoned.
    StateLock,
    /// The web service is already running.
    AlreadyRunning,
    /// The web service is not running.
    NotRunning,
    /// The child process could not be started; holds the system's reason.
    SpawnFailed(String),
    /// The child process has no standard output to read.
    NoStdout,
    /// The child process has no standard error to read.
    NoStderr,
    /// There is no main window to put a page into.
    NoMainWindow,
    /// The selected page does not exist yet.
    PageNotLoaded,
    /// The address is not a URL; holds the parser's reason.
    BadAddress(String),
    /// The address is a URL with a scheme other than http and https.
    UnsupportedScheme,
    /// The per-user cache directory is unknown; holds the reason.
    CacheDirUnknown(String),
    /// The per-user cache directory could not be created; holds the reason.
    CacheDirNotCreated(String),
    /// Any other failure, with its own message.
    Host(String),
}

/// The contents of a [`LauncherError`].
pub enum LauncherErrorView {
    StateLock,
    AlreadyRunning,
    NotRunning,
    SpawnFailed(Seq<char>),
    NoStdout,
    NoStderr,
    NoMainWindow,
    PageNotLoaded,
    BadAddress(Seq<char>),
    UnsupportedScheme,
    CacheDirUnknown(Seq<char>),
    CacheDirNotCreated(Seq<char>),
    Host(Seq<char>),
}

impl View for LauncherError {
    type V = LauncherErrorView;

    open spec fn view(&self) -> LauncherErrorView {
        match self {
            LauncherError::StateLock => LauncherErrorView::StateLock,
            LauncherError::AlreadyRunning => LauncherErrorView::AlreadyRunning,
            LauncherError::NotRunning => LauncherErrorView::NotRunning,
            LauncherError::SpawnFailed(e) => LauncherErrorView::SpawnFailed(e@),
            LauncherError::NoStdout => LauncherErrorView::NoStdout,
            LauncherError::NoStderr => LauncherErrorView::NoStderr,
            LauncherError::NoMainWindow => LauncherErrorView::NoMainWindow,
            LauncherError::PageNotLoaded => LauncherErrorView::PageNotLoaded,
            LauncherError::BadAddress(e) => LauncherErrorView::BadAddress(e@),
            LauncherError::UnsupportedScheme => LauncherErrorView::UnsupportedScheme,
            LauncherError::CacheDirUnknown(e) => LauncherErrorView::CacheDirUnknown(e@),
            LauncherError::CacheDirNotCreated(e) => LauncherErrorView::CacheDirNotCreated(e@),
            LauncherError::Host(e) => LauncherErrorView::Host(e@),
        }
    }
}

impl LauncherErrorView {
    /// The message shown to the user.
    pub open spec fn message(self) -> Seq<char> {
        match self {
            LauncherErrorView::StateLock => "状态锁异常"@,
            LauncherErrorView::AlreadyRunning => "DSH 进程已在运行中"@,
            LauncherErrorView::NotRunning => "DSH 未在运行"@,
            LauncherErrorView::SpawnFailed(e) =>
                "无法启动 npx（请确认已安装 Node.js 且 npx 位于 PATH 中）: "@ + e,
            LauncherErrorView::NoStdout => "无法读取子进程 stdout"@,
            LauncherErrorView::NoStderr => "无法读取子进程 stderr"@,
            LauncherErrorView::NoMainWindow => "无主窗口"@,
            LauncherErrorView::PageNotLoaded => "网页尚未加载"@,
            LauncherErrorView::BadAddress(e) => "地址无效："@ + e,
            LauncherErrorView::UnsupportedScheme => "仅支持 http/https 地址"@,
            LauncherErrorView::CacheDirUnknown(e) => "无法获取缓存目录："@ + e,
            LauncherErrorView::CacheDirNotCreated(e) => "无法创建缓存目录："@ + e,
            LauncherErrorView::Host(e) => e,
        }
    }
}

impl LauncherError {
    /// The message shown to the user.
    pub fn message(&self) -> (text: String)
        ensures
            text@ == self@.message(),
    {
        match self {
            LauncherError::StateLock => "状态锁异常".to_owned(),
            LauncherError::AlreadyRunning => "DSH 进程已在运行中".to_owned(),
            LauncherError::NotRunning => "DSH 未在运行".to_owned(),
            LauncherError::SpawnFailed(e) =>
                join("无法启动 npx（请确认已安装 Node.js 且 npx 位于 PATH 中）: ", e.as_str()),
            LauncherError::NoStdout => "无法读取子进程 stdout".to_owned(),
            LauncherError::NoStderr => "无法读取子进程 stderr".to_owned(),
            LauncherError::NoMainWindow => "无主窗口".to_owned(),
            LauncherError::PageNotLoaded => "网页尚未加载".to_owned(),
            LauncherError::BadAddress(e) => join("地址无效：", e.as_str()),
            LauncherError::UnsupportedScheme => "仅支持 http/https 地址".to_owned(),
            LauncherError::CacheDirUnknown(e) => join("无法获取缓存目录：", e.as_str()),
            LauncherError::CacheDirNotCreated(e) => join("无法创建缓存目录：", e.as_str()),
            LauncherError::Host(e) => e.clone(),
        }
    }
}

/// A reason is passed on to the user word for word, at the end of a message that is otherwise the
/// same for every reason.
pub proof fn law_messages_pass_reasons_on(reason: Seq<char>)
    ensures
        LauncherErrorView::SpawnFailed(reason).message() == LauncherErrorView::SpawnFailed(
            Seq::empty(),
        ).message() + reason,
        LauncherErrorView::BadAddress(reason).message() == LauncherErrorView::BadAddress(
            Seq::empty(),
        ).message() + reason,
        LauncherErrorView::CacheDirUnknown(reason).message() == LauncherErrorView::CacheDirUnknown(
            Seq::empty(),
        ).message() + reason,
        LauncherErrorView::CacheDirNotCreated(reason).message()
            == LauncherErrorView::CacheDirNotCreated(Seq::empty()).message() + reason,
        LauncherErrorView::Host(reason).message() == reason,
{
    assert(LauncherErrorView::SpawnFailed(reason).message() =~= LauncherErrorView::SpawnFailed(
        Seq::empty(),
    ).message() + reason);
    assert(LauncherErrorView::BadAddress(reason).message() =~= LauncherErrorView::BadAddress(
        Seq::empty(),
    ).message() + reason);
    assert(LauncherErrorView::CacheDirUnknown(reason).message()
        =~= LauncherErrorView::CacheDirUnknown(Seq::empty()).message() + reason);
    assert(LauncherErrorView::CacheDirNotCreated(reason).message()
        =~= LauncherErrorView::CacheDirNotCreated(Seq::empty()).message() + reason);
}

} // verus!
