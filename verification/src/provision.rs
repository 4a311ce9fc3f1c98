//! The provisioning run as a state machine. The machine decides; its caller
//! acts. Every reply names one action for the caller to carry out, and the
//! caller hands back what came of it as the next event. Nothing here touches
//! the network, the file system or a process.

use vstd::prelude::*;
use vstd::string::StringExecFns;
use crate::cleanup::{
    cleanup, entry_views, removal_path, removal_views, removals, target_is_empty, Entry, Removal,
    RemovalView,
};
use crate::command::{
    bootstrap, compilation, compile, install, list, list_command, outcome, pip_install,
    pip_uninstall, setup_pip, string_views, succeeded, uninstall, version_command, version_query,
    Command, CommandView, Purpose,
};
use crate::config::{keeps_pip, selector_valid, wants_latest, Config, Request};
use crate::error::{Cleaning, Error, Lookup};
use crate::hash::{md5_hex, verifies};
use crate::number::decimal;
use crate::output::{get_local_python_version, listing, local_version, pip_list};
use crate::pattern::{
    download_info_of, get_latest_python_version, get_python_download_info, latest_version_of,
};
use crate::pth::{ensure_pth, fixed_pth, pth_file_name, pth_name};
use crate::record::{concat, log, log_str, record_views, Level, Record};
use crate::release::{
    archive_file, archive_name, release_page, release_page_url, BOOTSTRAP_URL, DOWNLOADS_PAGE,
};

verus! {

/// The phases of a run, in the order in which a run goes through them.
#[derive(Debug, Clone, Copy, PartialEq, Eq, Structural)]
pub enum Phase {
    /// Nothing has happened yet.
    Start,
    /// The request is checked, and for a fresh run the target directory.
    Validate,
    /// The version to fetch is determined.
    ResolveVersion,
    /// The version of the tree that is there is read.
    ReadLocalVersion,
    /// The archive is located, fetched and verified.
    DownloadVerify,
    /// The archive is unpacked into the target.
    Extract,
    /// The tree is made ready for the package manager: the bootstrap script
    /// is put in place and the search-path file is rewritten.
    FixupPath,
    /// The package manager is installed.
    BootstrapPkgmgr,
    /// The package manager and its build-support packages are upgraded.
    InstallCore,
    /// The requested packages are installed.
    InstallUserPkgs,
    /// The installed packages are byte-compiled.
    Compile,
    /// The installed packages are listed.
    List,
    /// What is not needed at run time is removed.
    Cleanup,
    /// The run has ended with success.
    Done,
    /// The run has ended with a failure.
    Failed,
}

/// Where a run stands: what it is waiting for.
#[derive(Debug, Clone, Copy, PartialEq, Eq, Structural)]
pub enum Step {
    /// Waiting to hear whether the target directory is empty.
    InspectingTarget,
    /// Waiting for the downloads page.
    FetchingLatest,
    /// Waiting for the release page.
    FetchingRelease,
    /// Waiting for the archive kept from an earlier run, if there is one.
    ReadingCache,
    /// Waiting for the archive from the network.
    Downloading,
    /// Waiting for the archive to be saved.
    SavingArchive,
    /// Waiting for the archive to be unpacked.
    Extracting,
    /// Waiting for the version of the tree that is there.
    ReadingLocalVersion,
    /// Waiting to hear whether the bootstrap script is there.
    CheckingScript,
    /// Waiting for the bootstrap script from the network.
    DownloadingScript,
    /// Waiting for the bootstrap script to be saved.
    SavingScript,
    /// Waiting for the interpreter's version, to name the search-path file.
    QueryingVersion,
    /// Waiting for the content of the search-path file.
    ReadingPth,
    /// Waiting for the search-path file to be written.
    WritingPth,
    /// Waiting for the bootstrap script to finish.
    Bootstrapping,
    /// Waiting for the package manager's upgrade to finish.
    UpgradingPip,
    /// Waiting for the build-support packages' install to finish.
    InstallingTools,
    /// Waiting for the requested packages' install to finish.
    InstallingPackages,
    /// Waiting for the compile pass to finish.
    Compiling,
    /// Waiting for the package list.
    Listing,
    /// Waiting for the package manager's uninstall to finish.
    Uninstalling,
    /// Waiting for the tree's directories to be looked up.
    InspectingTree,
    /// Waiting for a directory to be removed.
    Removing,
    /// Ended with success.
    Done,
    /// Ended with a failure.
    Failed,
}

/// The phase that a step belongs to.
pub open spec fn phase_of(step: Step) -> Phase {
    match step {
        Step::InspectingTarget => Phase::Validate,
        Step::FetchingLatest => Phase::ResolveVersion,
        Step::FetchingRelease => Phase::DownloadVerify,
        Step::ReadingCache => Phase::DownloadVerify,
        Step::Downloading => Phase::DownloadVerify,
        Step::SavingArchive => Phase::DownloadVerify,
        Step::Extracting => Phase::Extract,
        Step::ReadingLocalVersion => Phase::ReadLocalVersion,
        Step::CheckingScript => Phase::FixupPath,
        Step::DownloadingScript => Phase::FixupPath,
        Step::SavingScript => Phase::FixupPath,
        Step::QueryingVersion => Phase::FixupPath,
        Step::ReadingPth => Phase::FixupPath,
        Step::WritingPth => Phase::FixupPath,
        Step::Bootstrapping => Phase::BootstrapPkgmgr,
        Step::UpgradingPip => Phase::InstallCore,
        Step::InstallingTools => Phase::InstallCore,
        Step::InstallingPackages => Phase::InstallUserPkgs,
        Step::Compiling => Phase::Compile,
        Step::Listing => Phase::List,
        Step::Uninstalling => Phase::Cleanup,
        Step::InspectingTree => Phase::Cleanup,
        Step::Removing => Phase::Cleanup,
        Step::Done => Phase::Done,
        Step::Failed => Phase::Failed,
    }
}

/// A run that has ended waits for nothing.
pub open spec fn is_terminal(step: Step) -> bool {
    step == Step::Done || step == Step::Failed
}

impl Step {
    /// The phase that this step belongs to.
    pub fn phase(&self) -> (r: Phase)
        ensures
            r == phase_of(*self),
    {
        match self {
            Step::InspectingTarget => Phase::Validate,
            Step::FetchingLatest => Phase::ResolveVersion,
            Step::FetchingRelease => Phase::DownloadVerify,
            Step::ReadingCache => Phase::DownloadVerify,
            Step::Downloading => Phase::DownloadVerify,
            Step::SavingArchive => Phase::DownloadVerify,
            Step::Extracting => Phase::Extract,
            Step::ReadingLocalVersion => Phase::ReadLocalVersion,
            Step::CheckingScript => Phase::FixupPath,
            Step::DownloadingScript => Phase::FixupPath,
            Step::SavingScript => Phase::FixupPath,
            Step::QueryingVersion => Phase::FixupPath,
            Step::ReadingPth => Phase::FixupPath,
            Step::WritingPth => Phase::FixupPath,
            Step::Bootstrapping => Phase::BootstrapPkgmgr,
            Step::UpgradingPip => Phase::InstallCore,
            Step::InstallingTools => Phase::InstallCore,
            Step::InstallingPackages => Phase::InstallUserPkgs,
            Step::Compiling => Phase::Compile,
            Step::Listing => Phase::List,
            Step::Uninstalling => Phase::Cleanup,
            Step::InspectingTree => Phase::Cleanup,
            Step::Removing => Phase::Cleanup,
            Step::Done => Phase::Done,
            Step::Failed => Phase::Failed,
        }
    }
}

/// What the caller is asked to do.
#[derive(Debug)]
pub enum Action {
    /// Say whether the target directory exists and how many entries it has.
    /// Answered by `Event::Target`.
    InspectTarget,
    /// Fetch the page at this address as text. Answered by `Event::Page`.
    Fetch(String),
    /// Read the archive of this name from the cache directory. Answered by
    /// `Event::Archive`.
    ReadArchive(String),
    /// Fetch the archive at this address, reporting progress. Answered by
    /// `Event::Downloaded`.
    DownloadArchive(String),
    /// Save these bytes as the archive of this name in the cache directory.
    /// Answered by `Event::Done`.
    SaveArchive(String, Vec<u8>),
    /// Unpack the archive of this name into the target directory. Answered
    /// by `Event::Done`.
    Extract(String),
    /// Say whether the bootstrap script is in the working directory.
    /// Answered by `Event::Present`.
    CheckScript,
    /// Fetch the bootstrap script at this address, reporting progress.
    /// Answered by `Event::Downloaded`.
    DownloadScript(String),
    /// Save these bytes as the bootstrap script. Answered by `Event::Done`.
    SaveScript(Vec<u8>),
    /// Run the interpreter, its output going to the log. Answered by
    /// `Event::Exited`.
    Run(Command),
    /// Run the interpreter and keep what it writes to standard output.
    /// Answered by `Event::Output`.
    Capture(Command),
    /// Read the file of this name in the target directory. Answered by
    /// `Event::Content`.
    ReadPth(String),
    /// Write this content to the file of this name in the target directory.
    /// Answered by `Event::Done`.
    WritePth(String, String),
    /// Look at the tree: whether the scripts directory exists, if asked, and
    /// the entries of the installed-packages directory, if asked. Answered
    /// by `Event::Tree`.
    InspectTree { scripts: bool, packages: bool },
    /// Remove this directory with all it holds. Answered by `Event::Done`.
    RemoveDir(Removal),
    /// Nothing: the run has ended.
    Stop,
}

/// An action, with its texts as sequences.
pub enum ActionView {
    InspectTarget,
    Fetch(Seq<char>),
    ReadArchive(Seq<char>),
    DownloadArchive(Seq<char>),
    SaveArchive(Seq<char>, Seq<u8>),
    Extract(Seq<char>),
    CheckScript,
    DownloadScript(Seq<char>),
    SaveScript(Seq<u8>),
    Run(CommandView),
    Capture(CommandView),
    ReadPth(Seq<char>),
    WritePth(Seq<char>, Seq<char>),
    InspectTree { scripts: bool, packages: bool },
    RemoveDir(RemovalView),
    Stop,
}

impl View for Action {
    type V = ActionView;

    open spec fn view(&self) -> ActionView {
        match self {
            Action::InspectTarget => ActionView::InspectTarget,
            Action::Fetch(url) => ActionView::Fetch(url@),
            Action::ReadArchive(name) => ActionView::ReadArchive(name@),
            Action::DownloadArchive(url) => ActionView::DownloadArchive(url@),
            Action::SaveArchive(name, data) => ActionView::SaveArchive(name@, data@),
            Action::Extract(name) => ActionView::Extract(name@),
            Action::CheckScript => ActionView::CheckScript,
            Action::DownloadScript(url) => ActionView::DownloadScript(url@),
            Action::SaveScript(data) => ActionView::SaveScript(data@),
            Action::Run(command) => ActionView::Run(command@),
            Action::Capture(command) => ActionView::Capture(command@),
            Action::ReadPth(name) => ActionView::ReadPth(name@),
            Action::WritePth(name, content) => ActionView::WritePth(name@, content@),
            Action::InspectTree { scripts, packages } => ActionView::InspectTree {
                scripts: *scripts,
                packages: *packages,
            },
            Action::RemoveDir(removal) => ActionView::RemoveDir(removal@),
            Action::Stop => ActionView::Stop,
        }
    }
}

/// The action goes to the network.
pub open spec fn uses_network(action: ActionView) -> bool {
    action is Fetch || action is DownloadArchive || action is DownloadScript
}

/// What came of an action.
#[derive(Debug)]
pub enum Event {
    /// Whether the target directory exists, and how many entries it has.
    Target { present: bool, entries: usize },
    /// The text of the page fetched.
    Page(String),
    /// The bytes of the archive in the cache, or nothing if it is not there
    /// or cannot be read.
    Archive(Option<Vec<u8>>),
    /// The bytes fetched.
    Downloaded(Vec<u8>),
    /// Whether the bootstrap script is there.
    Present(bool),
    /// The exit code of the interpreter, if it ended with one.
    Exited(Option<i32>),
    /// The exit code of the interpreter, and what it wrote to standard
    /// output.
    Output { code: Option<i32>, stdout: String },
    /// The content of the file read, or nothing if the file is not there.
    Content(Option<String>),
    /// Whether the scripts directory exists, and the entries of the
    /// installed-packages directory.
    Tree { scripts: bool, packages: Vec<Entry> },
    /// The action was carried out.
    Done,
    /// The action could not be carried out.
    Failed { error: Error, detail: String },
}

/// An event, with its texts as sequences.
pub enum EventView {
    Target { present: bool, entries: nat },
    Page(Seq<char>),
    Archive(Option<Seq<u8>>),
    Downloaded(Seq<u8>),
    Present(bool),
    Exited(Option<i32>),
    Output { code: Option<i32>, stdout: Seq<char> },
    Content(Option<Seq<char>>),
    Tree { scripts: bool, packages: Seq<(Seq<char>, bool)> },
    Done,
    Failed { error: Error, detail: Seq<char> },
}

impl View for Event {
    type V = EventView;

    open spec fn view(&self) -> EventView {
        match self {
            Event::Target { present, entries } => EventView::Target {
                present: *present,
                entries: *entries as nat,
            },
            Event::Page(body) => EventView::Page(body@),
            Event::Archive(data) => EventView::Archive(
                match data {
                    Some(d) => Some(d@),
                    None => None,
                },
            ),
            Event::Downloaded(data) => EventView::Downloaded(data@),
            Event::Present(present) => EventView::Present(*present),
            Event::Exited(code) => EventView::Exited(*code),
            Event::Output { code, stdout } => EventView::Output { code: *code, stdout: stdout@ },
            Event::Content(content) => EventView::Content(
                match content {
                    Some(c) => Some(c@),
                    None => None,
                },
            ),
            Event::Tree { scripts, packages } => EventView::Tree {
                scripts: *scripts,
                packages: entry_views(packages@),
            },
            Event::Done => EventView::Done,
            Event::Failed { error, detail } => EventView::Failed { error: *error, detail: detail@ },
        }
    }
}

/// What the machine says after an event: the phases that the run has
/// entered by it, in order; the lines for the log; and the next action.
#[derive(Debug)]
pub struct Reply {
    pub entered: Vec<Phase>,
    pub logs: Vec<Record>,
    pub action: Action,
}

/// A reply, with its texts as sequences.
pub struct ReplyView {
    pub entered: Seq<Phase>,
    pub logs: Seq<(Level, Seq<char>)>,
    pub action: ActionView,
}

impl View for Reply {
    type V = ReplyView;

    open spec fn view(&self) -> ReplyView {
        ReplyView { entered: self.entered@, logs: record_views(self.logs@), action: self.action@ }
    }
}

/// The state of a run.
pub struct Machine {
    /// The request that the run serves.
    pub request: Request,
    /// What the run is waiting for.
    pub step: Step,
    /// The version that is fetched, once it is known.
    pub version: Seq<char>,
    /// Where the archive is fetched from, once it is known.
    pub url: Seq<char>,
    /// The archive's expected hash, once it is known.
    pub hash: Seq<char>,
    /// The name of the search-path file, once it is known.
    pub pth: Seq<char>,
    /// The directories that are still to be removed.
    pub pending: Seq<RemovalView>,
    /// Why the run failed, if it did.
    pub error: Option<Error>,
}

/// The machine of a run that has not begun.
pub open spec fn initial(request: Request) -> Machine {
    Machine {
        request,
        step: Step::InspectingTarget,
        version: Seq::empty(),
        url: Seq::empty(),
        hash: Seq::empty(),
        pth: Seq::empty(),
        pending: Seq::empty(),
        error: None,
    }
}

/// The package manager, for its upgrade.
pub open spec fn manager() -> Seq<Seq<char>> {
    seq!["pip"@]
}

/// The two build-support packages of the package manager.
pub open spec fn build_support() -> Seq<Seq<char>> {
    seq!["setuptools"@, "wheel"@]
}

/// What is uninstalled at the end unless the package manager is kept.
pub open spec fn bootstrap_packages() -> Seq<Seq<char>> {
    seq!["setuptools"@, "wheel"@, "pip"@]
}

/// How a version triple reads in the log.
pub open spec fn version_text(v: (u8, u8, u8)) -> Seq<char> {
    decimal(v.0 as nat) + "."@ + decimal(v.1 as nat) + "."@ + decimal(v.2 as nat)
}

/// The failure that is recorded when the caller could not carry out the
/// action of `step`. Unpacking fails as `Extraction`, asking the interpreter
/// for its version as `LocalVersion`, looking up or removing directories as
/// `Cleanup`; elsewhere the caller's own reason stands.
pub open spec fn failure_in(step: Step, error: Error) -> Error {
    match step {
        Step::Extracting => Error::Extraction,
        Step::ReadingLocalVersion => Error::LocalVersion,
        Step::QueryingVersion => Error::LocalVersion,
        Step::InspectingTree => Error::Cleanup(Cleaning::Removal),
        Step::Removing => Error::Cleanup(Cleaning::Removal),
        _ => error,
    }
}

/// The run fails with `error`.
pub open spec fn fails(
    m: Machine,
    error: Error,
    entered: Seq<Phase>,
    logs: Seq<(Level, Seq<char>)>,
) -> (Machine, ReplyView) {
    (
        Machine { step: Step::Failed, error: Some(error), ..m },
        ReplyView { entered: entered.push(Phase::Failed), logs, action: ActionView::Stop },
    )
}

/// The run ends with success.
pub open spec fn finishes(m: Machine, entered: Seq<Phase>, logs: Seq<(Level, Seq<char>)>) -> (
    Machine,
    ReplyView,
) {
    (
        Machine { step: Step::Done, ..m },
        ReplyView {
            entered: entered.push(Phase::Done),
            logs: logs.push((Level::Warn, "完成！"@)),
            action: ActionView::Stop,
        },
    )
}

/// The run goes on to `step` and asks for `action`.
pub open spec fn moves(
    m: Machine,
    step: Step,
    entered: Seq<Phase>,
    logs: Seq<(Level, Seq<char>)>,
    action: ActionView,
) -> (Machine, ReplyView) {
    (Machine { step, ..m }, ReplyView { entered, logs, action })
}

/// The run goes on to the release page of `version`.
pub open spec fn to_release(
    m: Machine,
    version: Seq<char>,
    entered: Seq<Phase>,
    logs: Seq<(Level, Seq<char>)>,
) -> (Machine, ReplyView) {
    moves(
        Machine { version, ..m },
        Step::FetchingRelease,
        entered,
        logs.push((Level::Warn, "正在获取下载信息 ..."@)),
        ActionView::Fetch(release_page(version)),
    )
}

/// The run goes on to unpack the archive.
pub open spec fn to_extract(m: Machine, logs: Seq<(Level, Seq<char>)>) -> (Machine, ReplyView) {
    moves(
        m,
        Step::Extracting,
        seq![Phase::Extract],
        logs.push((Level::Warn, "解压文件 ..."@)),
        ActionView::Extract(archive_file(m.version, m.request.is32)),
    )
}

/// The run goes on to fetch the bootstrap script.
pub open spec fn to_script(m: Machine, entered: Seq<Phase>) -> (Machine, ReplyView) {
    moves(
        m,
        Step::DownloadingScript,
        entered,
        seq![(Level::Warn, "正在下载 pip ..."@)],
        ActionView::DownloadScript(BOOTSTRAP_URL@),
    )
}

/// The run goes on to ask the interpreter for its version.
pub open spec fn to_query(m: Machine, entered: Seq<Phase>) -> (Machine, ReplyView) {
    moves(
        m,
        Step::QueryingVersion,
        entered,
        seq![(Level::Warn, "修改 Python Path ..."@)],
        ActionView::Capture(version_query()),
    )
}

/// The run goes on to the compile pass.
pub open spec fn to_compile(m: Machine, entered: Seq<Phase>) -> (Machine, ReplyView) {
    moves(
        m,
        Step::Compiling,
        entered,
        seq![(Level::Warn, "正在编译 ..."@)],
        ActionView::Run(compilation(m.request.optimize)),
    )
}

/// The run goes on to remove the first of `list`, or ends if `list` is
/// empty. Each removal is logged with the action that asks for it.
pub open spec fn to_removal(
    m: Machine,
    list: Seq<RemovalView>,
    entered: Seq<Phase>,
    logs: Seq<(Level, Seq<char>)>,
) -> (Machine, ReplyView) {
    if list.len() == 0 {
        finishes(Machine { pending: list, ..m }, entered, logs)
    } else {
        moves(
            Machine { pending: list.drop_first(), ..m },
            Step::Removing,
            entered,
            logs.push((Level::Info, "删除目录："@ + removal_path(list[0]))),
            ActionView::RemoveDir(list[0]),
        )
    }
}

/// The run goes on to prune the tree's directories, or ends if scripts and
/// metadata are both kept.
pub open spec fn to_pruning(m: Machine, entered: Seq<Phase>, logs: Seq<(Level, Seq<char>)>) -> (
    Machine,
    ReplyView,
) {
    if m.request.keep_scripts && m.request.keep_dist_info {
        finishes(m, entered, logs)
    } else {
        moves(
            m,
            Step::InspectingTree,
            entered,
            logs,
            ActionView::InspectTree {
                scripts: !m.request.keep_scripts,
                packages: !m.request.keep_dist_info,
            },
        )
    }
}

/// The run enters cleanup: the package manager is uninstalled unless it is
/// kept, then the tree is pruned.
pub open spec fn to_cleanup(m: Machine, logs: Seq<(Level, Seq<char>)>) -> (Machine, ReplyView) {
    let logs = logs.push((Level::Warn, "正在清理 ..."@));
    if keeps_pip(m.request.keep_pip, m.request.packages) {
        to_pruning(m, seq![Phase::Cleanup], logs)
    } else {
        moves(
            m,
            Step::Uninstalling,
            seq![Phase::Cleanup],
            logs,
            ActionView::Run(uninstall(bootstrap_packages())),
        )
    }
}

/// How a run begins. The request is validated first: a bad version selector
/// fails the run before anything else is done. A run on an existing tree
/// then reads the tree's version; a fresh run asks whether the target is
/// empty.
pub open spec fn begin(request: Request) -> (Machine, ReplyView) {
    let m = initial(request);
    if !selector_valid(request.pyver) {
        fails(m, Error::InvalidVersion, seq![Phase::Start, Phase::Validate], Seq::empty())
    } else if request.skip_download {
        moves(
            m,
            Step::ReadingLocalVersion,
            seq![Phase::Start, Phase::Validate, Phase::ReadLocalVersion],
            seq![(Level::Warn, "正在检查本地 Python 版本 ..."@)],
            ActionView::Capture(version_query()),
        )
    } else {
        moves(
            m,
            Step::InspectingTarget,
            seq![Phase::Start, Phase::Validate],
            Seq::empty(),
            ActionView::InspectTarget,
        )
    }
}

/// What the machine makes of the answer to a command that ran with its
/// output in the log: with exit code 0 the run goes on as `onward` says,
/// else it fails with `failure`.
pub open spec fn after_command(
    m: Machine,
    code: Option<i32>,
    failure: Error,
    onward: (Machine, ReplyView),
) -> (Machine, ReplyView) {
    if succeeded(code) {
        onward
    } else {
        fails(m, failure, Seq::empty(), Seq::empty())
    }
}

/// What the machine does with an event: the new state and the reply.
///
/// A run that has ended stays as it is. An event that reports a failure ends
/// the run with that failure, its detail going to the log as an error. An
/// event that does not answer the pending action ends the run as
/// `Unexpected`. Else the event is judged by the step that waited for it.
pub open spec fn next(m: Machine, event: EventView) -> (Machine, ReplyView) {
    let none = Seq::<Phase>::empty();
    let quiet = Seq::<(Level, Seq<char>)>::empty();
    if is_terminal(m.step) {
        (m, ReplyView { entered: none, logs: quiet, action: ActionView::Stop })
    } else if let EventView::Failed { error, detail } = event {
        fails(m, failure_in(m.step, error), none, seq![(Level::Error, detail)])
    } else {
        match (m.step, event) {
            (Step::InspectingTarget, EventView::Target { present, entries }) => {
                if !target_is_empty(present, entries) {
                    fails(m, Error::NonEmptyTarget, none, quiet)
                } else if wants_latest(m.request.pyver) {
                    moves(
                        m,
                        Step::FetchingLatest,
                        seq![Phase::ResolveVersion],
                        seq![(Level::Warn, "正在获取最新版本号 ..."@)],
                        ActionView::Fetch(DOWNLOADS_PAGE@),
                    )
                } else {
                    to_release(
                        m,
                        m.request.pyver,
                        seq![Phase::ResolveVersion, Phase::DownloadVerify],
                        seq![(Level::Info, "指定版本："@ + m.request.pyver)],
                    )
                }
            },
            (Step::FetchingLatest, EventView::Page(body)) => match latest_version_of(body) {
                Some(version) => to_release(
                    m,
                    version,
                    seq![Phase::DownloadVerify],
                    seq![(Level::Info, "最新版本："@ + version)],
                ),
                None => fails(m, Error::NotFound(Lookup::LatestVersion), none, quiet),
            },
            (Step::FetchingRelease, EventView::Page(body)) => match download_info_of(
                body,
                m.request.is32,
            ) {
                Some((url, hash)) => moves(
                    Machine { url, hash, ..m },
                    Step::ReadingCache,
                    none,
                    seq![(Level::Info, "下载链接："@ + url), (Level::Info, "文件哈希："@ + hash)],
                    ActionView::ReadArchive(archive_file(m.version, m.request.is32)),
                ),
                None => fails(m, Error::NotFound(Lookup::DownloadInfo), none, quiet),
            },
            (Step::ReadingCache, EventView::Archive(data)) => {
                if data is Some && verifies(data->0, m.hash) {
                    to_extract(m, seq![(Level::Info, "文件已存在，跳过下载"@)])
                } else {
                    moves(
                        m,
                        Step::Downloading,
                        none,
                        seq![(Level::Warn, "正在下载 ..."@)],
                        ActionView::DownloadArchive(m.url),
                    )
                }
            },
            (Step::Downloading, EventView::Downloaded(data)) => {
                if verifies(data, m.hash) {
                    moves(
                        m,
                        Step::SavingArchive,
                        none,
                        seq![(Level::Warn, "校验文件完整性 ..."@)],
                        ActionView::SaveArchive(archive_file(m.version, m.request.is32), data),
                    )
                } else {
                    fails(
                        m,
                        Error::HashMismatch,
                        none,
                        seq![
                            (Level::Warn, "校验文件完整性 ..."@),
                            (Level::Info, "文件哈希不匹配"@),
                            (Level::Info, "预期："@ + m.hash),
                            (Level::Info, "实际："@ + md5_hex(data)),
                        ],
                    )
                }
            },
            (Step::SavingArchive, EventView::Done) => to_extract(m, quiet),
            (Step::Extracting, EventView::Done) => to_script(m, seq![Phase::FixupPath]),
            (Step::ReadingLocalVersion, EventView::Output { code, stdout }) => match local_version(
                stdout,
            ) {
                Some(v) => moves(
                    m,
                    Step::CheckingScript,
                    seq![Phase::FixupPath],
                    seq![(Level::Info, "本地版本："@ + version_text(v))],
                    ActionView::CheckScript,
                ),
                None => fails(m, Error::LocalVersion, none, quiet),
            },
            (Step::CheckingScript, EventView::Present(present)) => {
                if present {
                    to_query(m, none)
                } else {
                    to_script(m, none)
                }
            },
            (Step::DownloadingScript, EventView::Downloaded(data)) => moves(
                m,
                Step::SavingScript,
                none,
                quiet,
                ActionView::SaveScript(data),
            ),
            (Step::SavingScript, EventView::Done) => to_query(m, none),
            (Step::QueryingVersion, EventView::Output { code, stdout }) => match local_version(
                stdout,
            ) {
                Some(v) => moves(
                    Machine { pth: pth_name(v.0, v.1), ..m },
                    Step::ReadingPth,
                    none,
                    quiet,
                    ActionView::ReadPth(pth_name(v.0, v.1)),
                ),
                None => fails(m, Error::LocalVersion, none, quiet),
            },
            (Step::ReadingPth, EventView::Content(content)) => match content {
                Some(text) => moves(
                    m,
                    Step::WritingPth,
                    none,
                    quiet,
                    ActionView::WritePth(m.pth, fixed_pth(text)),
                ),
                None => fails(m, Error::MissingConfig, none, quiet),
            },
            (Step::WritingPth, EventView::Done) => moves(
                m,
                Step::Bootstrapping,
                seq![Phase::BootstrapPkgmgr],
                seq![(Level::Warn, "安装 pip ..."@)],
                ActionView::Run(bootstrap(Some(m.request.python_mirror))),
            ),
            (Step::Bootstrapping, EventView::Exited(code)) => after_command(
                m,
                code,
                Error::Bootstrap(code),
                moves(
                    m,
                    Step::UpgradingPip,
                    seq![Phase::InstallCore],
                    quiet,
                    ActionView::Run(install(manager(), Some(m.request.python_mirror))),
                ),
            ),
            (Step::UpgradingPip, EventView::Exited(code)) => after_command(
                m,
                code,
                Error::Install(code),
                moves(
                    m,
                    Step::InstallingTools,
                    none,
                    quiet,
                    ActionView::Run(install(build_support(), Some(m.request.python_mirror))),
                ),
            ),
            (Step::InstallingTools, EventView::Exited(code)) => after_command(
                m,
                code,
                Error::Install(code),
                if m.request.packages.len() > 0 {
                    moves(
                        m,
                        Step::InstallingPackages,
                        seq![Phase::InstallUserPkgs],
                        seq![(Level::Warn, "安装依赖包 ..."@)],
                        ActionView::Run(install(m.request.packages, Some(m.request.pip_mirror))),
                    )
                } else {
                    to_compile(m, seq![Phase::Compile])
                },
            ),
            (Step::InstallingPackages, EventView::Exited(code)) => after_command(
                m,
                code,
                Error::Install(code),
                to_compile(m, seq![Phase::Compile]),
            ),
            (Step::Compiling, EventView::Exited(code)) => after_command(
                m,
                code,
                Error::Compile(code),
                moves(
                    m,
                    Step::Listing,
                    seq![Phase::List],
                    seq![(Level::Info, "安装结果"@)],
                    ActionView::Capture(list()),
                ),
            ),
            (Step::Listing, EventView::Output { code, stdout }) => to_cleanup(
                m,
                listing(stdout, code),
            ),
            (Step::Uninstalling, EventView::Exited(code)) => after_command(
                m,
                code,
                Error::Cleanup(Cleaning::Uninstall(code)),
                to_pruning(m, none, quiet),
            ),
            (Step::InspectingTree, EventView::Tree { scripts, packages }) => to_removal(
                m,
                removals(m.request.keep_scripts, m.request.keep_dist_info, scripts, packages),
                none,
                quiet,
            ),
            (Step::Removing, EventView::Done) => to_removal(m, m.pending, none, quiet),
            _ => fails(m, Error::Unexpected, none, quiet),
        }
    }
}

/// A provisioning run under way.
pub struct Provisioner {
    config: Config,
    step: Step,
    version: String,
    url: String,
    hash: String,
    pth: String,
    pending: Vec<Removal>,
    error: Option<Error>,
}

impl View for Provisioner {
    type V = Machine;

    closed spec fn view(&self) -> Machine {
        Machine {
            request: self.config@,
            step: self.step,
            version: self.version@,
            url: self.url@,
            hash: self.hash@,
            pth: self.pth@,
            pending: removal_views(self.pending@),
            error: self.error,
        }
    }
}

fn one(a: &str) -> (r: Vec<String>)
    ensures
        string_views(r@) == seq![a@],
{
    let mut r: Vec<String> = Vec::new();
    r.push(String::from_str(a));
    assert(string_views(r@) =~= seq![a@]);
    r
}

fn two(a: &str, b: &str) -> (r: Vec<String>)
    ensures
        string_views(r@) == seq![a@, b@],
{
    let mut r: Vec<String> = Vec::new();
    r.push(String::from_str(a));
    r.push(String::from_str(b));
    assert(string_views(r@) =~= seq![a@, b@]);
    r
}

fn three(a: &str, b: &str, c: &str) -> (r: Vec<String>)
    ensures
        string_views(r@) == seq![a@, b@, c@],
{
    let mut r: Vec<String> = Vec::new();
    r.push(String::from_str(a));
    r.push(String::from_str(b));
    r.push(String::from_str(c));
    assert(string_views(r@) =~= seq![a@, b@, c@]);
    r
}

fn version_line(v: (u8, u8, u8)) -> (out: String)
    ensures
        out@ == "本地版本："@ + version_text(v),
{
    let mut out = String::from_str("本地版本：");
    out.append(crate::text::string_of(crate::number::render(v.0 as u64).as_slice()).as_str());
    out.append(".");
    out.append(crate::text::string_of(crate::number::render(v.1 as u64).as_slice()).as_str());
    out.append(".");
    out.append(crate::text::string_of(crate::number::render(v.2 as u64).as_slice()).as_str());
    assert(out@ =~= "本地版本："@ + version_text(v));
    out
}

impl Provisioner {
    /// Where the run stands.
    pub fn step(&self) -> (r: Step)
        ensures
            r == self@.step,
    {
        self.step
    }

    /// Why the run failed, if it did.
    pub fn error(&self) -> (r: Option<Error>)
        ensures
            r == self@.error,
    {
        self.error
    }

    /// The request that the run serves.
    pub fn config(&self) -> (r: &Config)
        ensures
            r@ == self@.request,
    {
        &self.config
    }

    /// Whether the run has ended.
    pub fn is_over(&self) -> (r: bool)
        ensures
            r == is_terminal(self@.step),
    {
        match self.step {
            Step::Done => true,
            Step::Failed => true,
            _ => false,
        }
    }

    fn fail(&mut self, error: Error, entered: Vec<Phase>, logs: Vec<Record>) -> (r: Reply)
        ensures
            final(self)@ == fails(old(self)@, error, entered@, record_views(logs@)).0,
            r@ == fails(old(self)@, error, entered@, record_views(logs@)).1,
    {
        let mut entered = entered;
        entered.push(Phase::Failed);
        self.step = Step::Failed;
        self.error = Some(error);
        Reply { entered, logs, action: Action::Stop }
    }

    fn finish(&mut self, entered: Vec<Phase>, logs: Vec<Record>) -> (r: Reply)
        ensures
            final(self)@ == finishes(old(self)@, entered@, record_views(logs@)).0,
            r@ == finishes(old(self)@, entered@, record_views(logs@)).1,
    {
        let mut entered = entered;
        let mut logs = logs;
        entered.push(Phase::Done);
        log_str(&mut logs, Level::Warn, "完成！");
        self.step = Step::Done;
        Reply { entered, logs, action: Action::Stop }
    }

    fn go(&mut self, step: Step, entered: Vec<Phase>, logs: Vec<Record>, action: Action) -> (r:
        Reply)
        ensures
            final(self)@ == moves(old(self)@, step, entered@, record_views(logs@), action@).0,
            r@ == moves(old(self)@, step, entered@, record_views(logs@), action@).1,
    {
        self.step = step;
        Reply { entered, logs, action }
    }

    fn go_release(&mut self, version: String, entered: Vec<Phase>, logs: Vec<Record>) -> (r: Reply)
        ensures
            final(self)@ == to_release(old(self)@, version@, entered@, record_views(logs@)).0,
            r@ == to_release(old(self)@, version@, entered@, record_views(logs@)).1,
    {
        let mut logs = logs;
        log_str(&mut logs, Level::Warn, "正在获取下载信息 ...");
        let url = release_page_url(version.as_str());
        self.version = version;
        self.go(Step::FetchingRelease, entered, logs, Action::Fetch(url))
    }

    fn go_extract(&mut self, logs: Vec<Record>) -> (r: Reply)
        ensures
            final(self)@ == to_extract(old(self)@, record_views(logs@)).0,
            r@ == to_extract(old(self)@, record_views(logs@)).1,
    {
        let mut logs = logs;
        log_str(&mut logs, Level::Warn, "解压文件 ...");
        let name = archive_name(self.version.as_str(), self.config.is32);
        self.go(Step::Extracting, one_phase(Phase::Extract), logs, Action::Extract(name))
    }

    fn go_script(&mut self, entered: Vec<Phase>) -> (r: Reply)
        ensures
            final(self)@ == to_script(old(self)@, entered@).0,
            r@ == to_script(old(self)@, entered@).1,
    {
        self.go(
            Step::DownloadingScript,
            entered,
            one_log(Level::Warn, String::from_str("正在下载 pip ...")),
            Action::DownloadScript(String::from_str(BOOTSTRAP_URL)),
        )
    }

    fn go_query(&mut self, entered: Vec<Phase>) -> (r: Reply)
        ensures
            final(self)@ == to_query(old(self)@, entered@).0,
            r@ == to_query(old(self)@, entered@).1,
    {
        self.go(
            Step::QueryingVersion,
            entered,
            one_log(Level::Warn, String::from_str("修改 Python Path ...")),
            Action::Capture(version_command()),
        )
    }

    fn go_compile(&mut self, entered: Vec<Phase>) -> (r: Reply)
        ensures
            final(self)@ == to_compile(old(self)@, entered@).0,
            r@ == to_compile(old(self)@, entered@).1,
    {
        let command = compile(self.config.optimize);
        self.go(
            Step::Compiling,
            entered,
            one_log(Level::Warn, String::from_str("正在编译 ...")),
            Action::Run(command),
        )
    }

    fn go_removal(&mut self, list: Vec<Removal>, entered: Vec<Phase>, logs: Vec<Record>) -> (r:
        Reply)
        ensures
            final(self)@ == to_removal(
                old(self)@,
                removal_views(list@),
                entered@,
                record_views(logs@),
            ).0,
            r@ == to_removal(old(self)@, removal_views(list@), entered@, record_views(logs@)).1,
    {
        let mut list = list;
        if list.len() == 0 {
            self.pending = list;
            assert(removal_views(self.pending@) =~= removal_views(list@));
            self.finish(entered, logs)
        } else {
            let ghost all = removal_views(list@);
            let first = list.remove(0);
            assert(removal_views(list@) =~= all.drop_first());
            assert(first@ == all[0]);
            let mut logs = logs;
            log(&mut logs, Level::Info, concat("删除目录：", first.path().as_str()));
            self.pending = list;
            self.go(Step::Removing, entered, logs, Action::RemoveDir(first))
        }
    }

    fn go_pruning(&mut self, entered: Vec<Phase>, logs: Vec<Record>) -> (r: Reply)
        ensures
            final(self)@ == to_pruning(old(self)@, entered@, record_views(logs@)).0,
            r@ == to_pruning(old(self)@, entered@, record_views(logs@)).1,
    {
        if self.config.keep_scripts && self.config.keep_dist_info {
            self.finish(entered, logs)
        } else {
            let action = Action::InspectTree {
                scripts: !self.config.keep_scripts,
                packages: !self.config.keep_dist_info,
            };
            self.go(Step::InspectingTree, entered, logs, action)
        }
    }

    fn go_cleanup(&mut self, logs: Vec<Record>) -> (r: Reply)
        ensures
            final(self)@ == to_cleanup(old(self)@, record_views(logs@)).0,
            r@ == to_cleanup(old(self)@, record_views(logs@)).1,
    {
        let mut logs = logs;
        log_str(&mut logs, Level::Warn, "正在清理 ...");
        if self.config.keeps_pip() {
            self.go_pruning(one_phase(Phase::Cleanup), logs)
        } else {
            let command = pip_uninstall(&three("setuptools", "wheel", "pip"));
            self.go(Step::Uninstalling, one_phase(Phase::Cleanup), logs, Action::Run(command))
        }
    }

    /// Begins a run for `config`: the machine, and its first reply.
    pub fn new(config: Config) -> (r: (Provisioner, Reply))
        ensures
            r.0@ == begin(config@).0,
            r.1@ == begin(config@).1,
    {
        let valid = config.validate();
        let skip = config.skip_download;
        let mut p = Provisioner {
            config,
            step: Step::InspectingTarget,
            version: String::new(),
            url: String::new(),
            hash: String::new(),
            pth: String::new(),
            pending: Vec::new(),
            error: None,
        };
        assert(removal_views(p.pending@) =~= Seq::empty());
        assert(p@ == initial(config@));
        let reply = match valid {
            Err(e) => p.fail(e, two_phases(Phase::Start, Phase::Validate), no_logs()),
            Ok(()) => {
                if skip {
                    let entered = vec![Phase::Start, Phase::Validate, Phase::ReadLocalVersion];
                    assert(entered@ =~= seq![
                        Phase::Start,
                        Phase::Validate,
                        Phase::ReadLocalVersion,
                    ]);
                    p.go(
                        Step::ReadingLocalVersion,
                        entered,
                        one_log(Level::Warn, String::from_str("正在检查本地 Python 版本 ...")),
                        Action::Capture(version_command()),
                    )
                } else {
                    p.go(
                        Step::InspectingTarget,
                        two_phases(Phase::Start, Phase::Validate),
                        no_logs(),
                        Action::InspectTarget,
                    )
                }
            },
        };
        (p, reply)
    }
}

fn no_logs() -> (r: Vec<Record>)
    ensures
        record_views(r@) == Seq::<(Level, Seq<char>)>::empty(),
{
    let r: Vec<Record> = Vec::new();
    assert(record_views(r@) =~= Seq::empty());
    r
}

fn one_log(level: Level, message: String) -> (r: Vec<Record>)
    ensures
        record_views(r@) == seq![(level, message@)],
{
    let mut r = no_logs();
    log(&mut r, level, message);
    assert(record_views(r@) =~= seq![(level, message@)]);
    r
}

fn no_phases() -> (r: Vec<Phase>)
    ensures
        r@ == Seq::<Phase>::empty(),
{
    Vec::new()
}

fn one_phase(a: Phase) -> (r: Vec<Phase>)
    ensures
        r@ == seq![a],
{
    let r = vec![a];
    assert(r@ =~= seq![a]);
    r
}

fn two_phases(a: Phase, b: Phase) -> (r: Vec<Phase>)
    ensures
        r@ == seq![a, b],
{
    let r = vec![a, b];
    assert(r@ =~= seq![a, b]);
    r
}

fn recorded_failure(step: Step, error: Error) -> (r: Error)
    ensures
        r == failure_in(step, error),
{
    match step {
        Step::Extracting => Error::Extraction,
        Step::ReadingLocalVersion => Error::LocalVersion,
        Step::QueryingVersion => Error::LocalVersion,
        Step::InspectingTree => Error::Cleanup(Cleaning::Removal),
        Step::Removing => Error::Cleanup(Cleaning::Removal),
        _ => error,
    }
}

impl Provisioner {
    /// Takes in what came of the pending action and says what to do next.
    pub fn advance(&mut self, event: Event) -> (r: Reply)
        ensures
            final(self)@ == next(old(self)@, event@).0,
            r@ == next(old(self)@, event@).1,
    {
        if self.is_over() {
            return Reply { entered: no_phases(), logs: no_logs(), action: Action::Stop };
        }
        match (self.step, event) {
            (step, Event::Failed { error, detail }) => {
                let logs = one_log(Level::Error, detail);
                self.fail(recorded_failure(step, error), no_phases(), logs)
            },
            (Step::InspectingTarget, Event::Target { present, entries }) => {
                if !crate::cleanup::is_empty_dir(present, entries) {
                    self.fail(Error::NonEmptyTarget, no_phases(), no_logs())
                } else if self.config.wants_latest() {
                    self.go(
                        Step::FetchingLatest,
                        one_phase(Phase::ResolveVersion),
                        one_log(Level::Warn, String::from_str("正在获取最新版本号 ...")),
                        Action::Fetch(String::from_str(DOWNLOADS_PAGE)),
                    )
                } else {
                    let version = self.config.pyver.clone();
                    let logs = one_log(Level::Info, concat("指定版本：", version.as_str()));
                    self.go_release(
                        version,
                        two_phases(Phase::ResolveVersion, Phase::DownloadVerify),
                        logs,
                    )
                }
            },
            (Step::FetchingLatest, Event::Page(body)) => {
                match get_latest_python_version(body.as_str()) {
                    Ok(version) => {
                        let logs = one_log(Level::Info, concat("最新版本：", version.as_str()));
                        self.go_release(version, one_phase(Phase::DownloadVerify), logs)
                    },
                    Err(e) => self.fail(e, no_phases(), no_logs()),
                }
            },
            (Step::FetchingRelease, Event::Page(body)) => {
                match get_python_download_info(body.as_str(), self.config.is32) {
                    Ok((url, hash)) => {
                        let mut logs = one_log(Level::Info, concat("下载链接：", url.as_str()));
                        log(&mut logs, Level::Info, concat("文件哈希：", hash.as_str()));
                        assert(record_views(logs@) =~= seq![
                            (Level::Info, "下载链接："@ + url@),
                            (Level::Info, "文件哈希："@ + hash@),
                        ]);
                        self.url = url;
                        self.hash = hash;
                        let name = archive_name(self.version.as_str(), self.config.is32);
                        self.go(Step::ReadingCache, no_phases(), logs, Action::ReadArchive(name))
                    },
                    Err(e) => self.fail(e, no_phases(), no_logs()),
                }
            },
            (Step::ReadingCache, Event::Archive(data)) => {
                let hit = match &data {
                    Some(bytes) => crate::hash::matches_hash(bytes.as_slice(), self.hash.as_str()),
                    None => false,
                };
                if hit {
                    let logs = one_log(Level::Info, String::from_str("文件已存在，跳过下载"));
                    self.go_extract(logs)
                } else {
                    let url = self.url.clone();
                    self.go(
                        Step::Downloading,
                        no_phases(),
                        one_log(Level::Warn, String::from_str("正在下载 ...")),
                        Action::DownloadArchive(url),
                    )
                }
            },
            (Step::Downloading, Event::Downloaded(data)) => {
                let mut logs = one_log(Level::Warn, String::from_str("校验文件完整性 ..."));
                let actual = crate::hash::md5_of(data.as_slice());
                match crate::hash::check_hash(actual.as_str(), self.hash.as_str()) {
                    Ok(()) => {
                        let name = archive_name(self.version.as_str(), self.config.is32);
                        self.go(
                            Step::SavingArchive,
                            no_phases(),
                            logs,
                            Action::SaveArchive(name, data),
                        )
                    },
                    Err(e) => {
                        log_str(&mut logs, Level::Info, "文件哈希不匹配");
                        log(&mut logs, Level::Info, concat("预期：", self.hash.as_str()));
                        log(&mut logs, Level::Info, concat("实际：", actual.as_str()));
                        assert(record_views(logs@) =~= seq![
                            (Level::Warn, "校验文件完整性 ..."@),
                            (Level::Info, "文件哈希不匹配"@),
                            (Level::Info, "预期："@ + self.hash@),
                            (Level::Info, "实际："@ + md5_hex(data@)),
                        ]);
                        self.fail(e, no_phases(), logs)
                    },
                }
            },
            (Step::SavingArchive, Event::Done) => self.go_extract(no_logs()),
            (Step::Extracting, Event::Done) => self.go_script(one_phase(Phase::FixupPath)),
            (Step::ReadingLocalVersion, Event::Output { code, stdout }) => {
                match get_local_python_version(stdout.as_str()) {
                    Ok(v) => self.go(
                        Step::CheckingScript,
                        one_phase(Phase::FixupPath),
                        one_log(Level::Info, version_line(v)),
                        Action::CheckScript,
                    ),
                    Err(e) => self.fail(e, no_phases(), no_logs()),
                }
            },
            (Step::CheckingScript, Event::Present(present)) => {
                if present {
                    self.go_query(no_phases())
                } else {
                    self.go_script(no_phases())
                }
            },
            (Step::DownloadingScript, Event::Downloaded(data)) => self.go(
                Step::SavingScript,
                no_phases(),
                no_logs(),
                Action::SaveScript(data),
            ),
            (Step::SavingScript, Event::Done) => self.go_query(no_phases()),
            (Step::QueryingVersion, Event::Output { code, stdout }) => {
                match get_local_python_version(stdout.as_str()) {
                    Ok(v) => {
                        self.pth = pth_file_name(v.0, v.1);
                        let name = self.pth.clone();
                        self.go(Step::ReadingPth, no_phases(), no_logs(), Action::ReadPth(name))
                    },
                    Err(e) => self.fail(e, no_phases(), no_logs()),
                }
            },
            (Step::ReadingPth, Event::Content(content)) => {
                match content {
                    Some(text) => {
                        let name = self.pth.clone();
                        self.go(
                            Step::WritingPth,
                            no_phases(),
                            no_logs(),
                            Action::WritePth(name, ensure_pth(text.as_str())),
                        )
                    },
                    None => self.fail(Error::MissingConfig, no_phases(), no_logs()),
                }
            },
            (Step::WritingPth, Event::Done) => {
                let command = setup_pip(Some(self.config.python_mirror.as_str()));
                self.go(
                    Step::Bootstrapping,
                    one_phase(Phase::BootstrapPkgmgr),
                    one_log(Level::Warn, String::from_str("安装 pip ...")),
                    Action::Run(command),
                )
            },
            (Step::Bootstrapping, Event::Exited(code)) => {
                match outcome(Purpose::Bootstrap, code) {
                    Ok(()) => {
                        let command = pip_install(
                            &one("pip"),
                            Some(self.config.python_mirror.as_str()),
                        );
                        self.go(
                            Step::UpgradingPip,
                            one_phase(Phase::InstallCore),
                            no_logs(),
                            Action::Run(command),
                        )
                    },
                    Err(e) => self.fail(e, no_phases(), no_logs()),
                }
            },
            (Step::UpgradingPip, Event::Exited(code)) => {
                match outcome(Purpose::Install, code) {
                    Ok(()) => {
                        let command = pip_install(
                            &two("setuptools", "wheel"),
                            Some(self.config.python_mirror.as_str()),
                        );
                        self.go(
                            Step::InstallingTools,
                            no_phases(),
                            no_logs(),
                            Action::Run(command),
                        )
                    },
                    Err(e) => self.fail(e, no_phases(), no_logs()),
                }
            },
            (Step::InstallingTools, Event::Exited(code)) => {
                match outcome(Purpose::Install, code) {
                    Ok(()) => {
                        if self.config.packages.len() > 0 {
                            let command = pip_install(
                                &self.config.packages,
                                Some(self.config.pip_mirror.as_str()),
                            );
                            self.go(
                                Step::InstallingPackages,
                                one_phase(Phase::InstallUserPkgs),
                                one_log(Level::Warn, String::from_str("安装依赖包 ...")),
                                Action::Run(command),
                            )
                        } else {
                            self.go_compile(one_phase(Phase::Compile))
                        }
                    },
                    Err(e) => self.fail(e, no_phases(), no_logs()),
                }
            },
            (Step::InstallingPackages, Event::Exited(code)) => {
                match outcome(Purpose::Install, code) {
                    Ok(()) => self.go_compile(one_phase(Phase::Compile)),
                    Err(e) => self.fail(e, no_phases(), no_logs()),
                }
            },
            (Step::Compiling, Event::Exited(code)) => {
                match outcome(Purpose::Compile, code) {
                    Ok(()) => self.go(
                        Step::Listing,
                        one_phase(Phase::List),
                        one_log(Level::Info, String::from_str("安装结果")),
                        Action::Capture(list_command()),
                    ),
                    Err(e) => self.fail(e, no_phases(), no_logs()),
                }
            },
            (Step::Listing, Event::Output { code, stdout }) => {
                let logs = pip_list(stdout.as_str(), code);
                self.go_cleanup(logs)
            },
            (Step::Uninstalling, Event::Exited(code)) => {
                match outcome(Purpose::Uninstall, code) {
                    Ok(()) => self.go_pruning(no_phases(), no_logs()),
                    Err(e) => self.fail(e, no_phases(), no_logs()),
                }
            },
            (Step::InspectingTree, Event::Tree { scripts, packages }) => {
                let list = cleanup(
                    self.config.keep_scripts,
                    self.config.keep_dist_info,
                    scripts,
                    &packages,
                );
                self.go_removal(list, no_phases(), no_logs())
            },
            (Step::Removing, Event::Done) => {
                let mut list: Vec<Removal> = Vec::new();
                std::mem::swap(&mut list, &mut self.pending);
                self.go_removal(list, no_phases(), no_logs())
            },
            _ => self.fail(Error::Unexpected, no_phases(), no_logs()),
        }
    }
}

/// The events, each by its view.
pub open spec fn event_views(events: Seq<Event>) -> Seq<EventView> {
    events.map_values(|e: Event| e@)
}

/// The replies, each by its view.
pub open spec fn reply_views(replies: Seq<Reply>) -> Seq<ReplyView> {
    replies.map_values(|r: Reply| r@)
}

/// Feeds `events` to the machine `m` one after the other until the run has
/// ended or the events are used up: the machine then, and the replies given.
pub open spec fn replay(m: Machine, events: Seq<EventView>) -> (Machine, Seq<ReplyView>)
    decreases events.len(),
{
    if events.len() == 0 || is_terminal(m.step) {
        (m, Seq::empty())
    } else {
        let (after, reply) = next(m, events[0]);
        let (last, replies) = replay(after, events.drop_first());
        (last, seq![reply] + replies)
    }
}

/// A whole run for `request` that is answered with `events`: the machine at
/// the end, and all replies from the first.
pub open spec fn run_of(request: Request, events: Seq<EventView>) -> (Machine, Seq<ReplyView>) {
    let (first, reply) = begin(request);
    let (last, replies) = replay(first, events);
    (last, seq![reply] + replies)
}

/// Plays a run for `config` against recorded events: the first event answers
/// the first action, and so on, until the run has ended or the events are
/// used up. Gives the machine as it stands then, and every reply.
pub fn run(config: Config, events: Vec<Event>) -> (r: (Provisioner, Vec<Reply>))
    ensures
        r.0@ == run_of(config@, event_views(events@)).0,
        reply_views(r.1@) == run_of(config@, event_views(events@)).1,
{
    let ghost all = event_views(events@);
    let (mut machine, first) = Provisioner::new(config);
    let mut replies: Vec<Reply> = Vec::new();
    replies.push(first);
    assert(reply_views(replies@) =~= seq![first@]);
    let mut rest = events;
    assert(reply_views(replies@) + replay(machine@, event_views(rest@)).1 =~= run_of(
        config@,
        all,
    ).1);
    while rest.len() > 0 && !machine.is_over()
        invariant
            replay(machine@, event_views(rest@)).0 == run_of(config@, all).0,
            reply_views(replies@) + replay(machine@, event_views(rest@)).1 == run_of(
                config@,
                all,
            ).1,
        decreases rest.len(),
    {
        let ghost before = event_views(rest@);
        let ghost given = reply_views(replies@);
        let ghost was = machine@;
        let event = rest.remove(0);
        assert(event@ == before[0]);
        assert(event_views(rest@) =~= before.drop_first());
        let reply = machine.advance(event);
        replies.push(reply);
        assert(reply_views(replies@) =~= given.push(reply@));
        assert(reply_views(replies@) + replay(machine@, event_views(rest@)).1 =~= given + replay(
            was,
            before,
        ).1) by {
            assert(given.push(reply@) + replay(machine@, event_views(rest@)).1 =~= given + (
            seq![reply@] + replay(machine@, event_views(rest@)).1));
        }
    }
    assert(reply_views(replies@) + Seq::<ReplyView>::empty() =~= reply_views(replies@));
    (machine, replies)
}

} // verus!
