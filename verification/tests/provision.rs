use pyembed_downloader::cleanup::{Entry, Removal};
use pyembed_downloader::command::{Arg, Command, Input, Purpose};
use pyembed_downloader::error::{Cleaning, Error, Lookup};
use pyembed_downloader::provision::{Action, Event, Phase, Provisioner, Reply, Step};
use pyembed_downloader::record::Level;
use pyembed_downloader::{run, Config};

const ARCHIVE: &[u8] = b"hello world";
const HASH: &str = "5eb63bbbe01eeed093cb22bb8f5acdc3";

fn config(pyver: &str, packages: &[&str]) -> Config {
    let mut c = Config::default();
    c.pyver = pyver.to_string();
    c.packages = packages.iter().map(|p| p.to_string()).collect();
    c
}

fn latest_page() -> Event {
    Event::Page("<a>Latest Python 3 Release - Python 3.8.6</a>".to_string())
}

fn release_page() -> Event {
    Event::Page(format!(
        "<a href=\"https://www.python.org/ftp/python/3.8.6/python-3.8.6-embed-amd64.zip\">Windows x86-64 embeddable zip file</a> md5 {} size",
        HASH.to_uppercase()
    ))
}

fn version_output() -> Event {
    Event::Output { code: Some(0), stdout: "3.8.6\r\n".to_string() }
}

fn ok() -> Event {
    Event::Exited(Some(0))
}

fn tree() -> Event {
    Event::Tree {
        scripts: true,
        packages: vec![
            Entry { name: "requests".to_string(), is_dir: true },
            Entry { name: "requests-2.24.0.dist-info".to_string(), is_dir: true },
        ],
    }
}

fn fresh_run_events(latest: bool, packages: bool, keep_pip: bool) -> Vec<Event> {
    let mut events = vec![Event::Target { present: false, entries: 0 }];
    if latest {
        events.push(latest_page());
    }
    events.push(release_page());
    events.push(Event::Archive(None));
    events.push(Event::Downloaded(ARCHIVE.to_vec()));
    events.push(Event::Done);
    events.push(Event::Done);
    events.push(Event::Downloaded(b"print('get-pip')".to_vec()));
    events.push(Event::Done);
    events.push(version_output());
    events.push(Event::Content(Some("python38.zip\n.\n#import site\n".to_string())));
    events.push(Event::Done);
    events.push(ok());
    events.push(ok());
    events.push(ok());
    if packages {
        events.push(ok());
    }
    events.push(ok());
    events.push(Event::Output { code: Some(0), stdout: "pip 20\nrequests 2.24.0\n".to_string() });
    if !keep_pip {
        events.push(ok());
    }
    events.push(tree());
    events.push(Event::Done);
    events.push(Event::Done);
    events
}

fn phases(replies: &[Reply]) -> Vec<Phase> {
    replies.iter().flat_map(|r| r.entered.iter().copied()).collect()
}

fn words(cmd: &Command) -> Vec<String> {
    cmd.args
        .iter()
        .map(|a| match a {
            Arg::Text(s) => s.clone(),
            Arg::TargetDir => "<target>".to_string(),
        })
        .collect()
}

fn describe(action: &Action) -> String {
    match action {
        Action::InspectTarget => "inspect target".to_string(),
        Action::Fetch(url) => format!("fetch {}", url),
        Action::ReadArchive(name) => format!("read {}", name),
        Action::DownloadArchive(url) => format!("download {}", url),
        Action::SaveArchive(name, data) => format!("save {} {}", name, data.len()),
        Action::Extract(name) => format!("extract {}", name),
        Action::CheckScript => "check script".to_string(),
        Action::DownloadScript(url) => format!("download script {}", url),
        Action::SaveScript(data) => format!("save script {}", data.len()),
        Action::Run(cmd) => format!("run {}", words(cmd).join(" ")),
        Action::Capture(cmd) => format!("capture {:?}", cmd.purpose),
        Action::ReadPth(name) => format!("read pth {}", name),
        Action::WritePth(name, content) => format!("write pth {} {:?}", name, content),
        Action::InspectTree { scripts, packages } => format!("inspect tree {} {}", scripts, packages),
        Action::RemoveDir(removal) => format!("remove {}", removal.path()),
        Action::Stop => "stop".to_string(),
    }
}

fn actions(replies: &[Reply]) -> Vec<String> {
    replies.iter().map(|r| describe(&r.action)).collect()
}

fn all_phases(user_packages: bool) -> Vec<Phase> {
    let mut p = vec![
        Phase::Start,
        Phase::Validate,
        Phase::ResolveVersion,
        Phase::DownloadVerify,
        Phase::Extract,
        Phase::FixupPath,
        Phase::BootstrapPkgmgr,
        Phase::InstallCore,
    ];
    if user_packages {
        p.push(Phase::InstallUserPkgs);
    }
    p.extend([Phase::Compile, Phase::List, Phase::Cleanup, Phase::Done]);
    p
}

#[test]
fn fresh_run_for_latest_goes_through_every_phase_once() {
    let (machine, replies) = run(config("latest", &["requests"]), fresh_run_events(true, true, false));
    assert_eq!(machine.step(), Step::Done);
    assert_eq!(machine.error(), None);
    assert_eq!(phases(&replies), all_phases(true));
    assert_eq!(
        actions(&replies),
        vec![
            "inspect target",
            "fetch https://www.python.org/downloads/windows/",
            "fetch https://www.python.org/downloads/release/python-386/",
            "read python-3.8.6-embed-amd64.zip",
            "download https://www.python.org/ftp/python/3.8.6/python-3.8.6-embed-amd64.zip",
            "save python-3.8.6-embed-amd64.zip 11",
            "extract python-3.8.6-embed-amd64.zip",
            "download script https://bootstrap.pypa.io/get-pip.py",
            "save script 16",
            "capture QueryVersion",
            "read pth python38._pth",
            "write pth python38._pth \"python38.zip\\n.\\nimport site\"",
            "run - --no-cache-dir --no-warn-script-location",
            "run -m pip install --no-cache-dir --no-warn-script-location -U pip",
            "run -m pip install --no-cache-dir --no-warn-script-location -U setuptools wheel",
            "run -m pip install --no-cache-dir --no-warn-script-location -U requests",
            "run - <target> 0",
            "capture List",
            "run -m pip uninstall -y setuptools wheel pip",
            "inspect tree true true",
            "remove Scripts",
            "remove Lib/site-packages/requests-2.24.0.dist-info",
            "stop",
        ]
    );
}

#[test]
fn explicit_version_is_used_as_given_without_the_downloads_page() {
    let (machine, replies) = run(config("3.8.6", &[]), fresh_run_events(false, false, false));
    assert_eq!(machine.step(), Step::Done);
    assert_eq!(phases(&replies), all_phases(false));
    let acts = actions(&replies);
    assert_eq!(acts[0], "inspect target");
    assert_eq!(acts[1], "fetch https://www.python.org/downloads/release/python-386/");
    assert_eq!(acts[2], "read python-3.8.6-embed-amd64.zip");
    assert!(!acts.iter().any(|a| a == "fetch https://www.python.org/downloads/windows/"));
    assert_eq!(
        replies[1].logs.iter().map(|r| (r.level, r.message.clone())).collect::<Vec<_>>(),
        vec![(Level::Info, "指定版本：3.8.6".to_string()), (Level::Warn, "正在获取下载信息 ...".to_string())]
    );
}

#[test]
fn empty_selector_means_latest() {
    let (machine, replies) = run(config("", &[]), vec![Event::Target { present: true, entries: 0 }]);
    assert_eq!(machine.step(), Step::FetchingLatest);
    assert_eq!(actions(&replies), vec!["inspect target", "fetch https://www.python.org/downloads/windows/"]);
}

#[test]
fn archive_name_for_32_bit() {
    let mut c = config("3.8.6", &[]);
    c.is32 = true;
    let page = Event::Page(format!(
        "<a href=\"https://x/python-3.8.6-embed-win32.zip\">Windows x86 embeddable zip file</a> {}",
        HASH
    ));
    let (_, replies) = run(c, vec![Event::Target { present: false, entries: 0 }, page]);
    assert_eq!(describe(&replies[2].action), "read python-3.8.6-embed-x86.zip");
}

#[test]
fn bad_selector_fails_before_anything_is_done() {
    for pyver in ["3.8", "newest", "3.8.6-rc1", " 3.8.6"] {
        let (machine, replies) = run(config(pyver, &[]), fresh_run_events(false, false, false));
        assert_eq!(machine.step(), Step::Failed);
        assert_eq!(machine.error(), Some(Error::InvalidVersion));
        assert_eq!(actions(&replies), vec!["stop"]);
        assert_eq!(phases(&replies), vec![Phase::Start, Phase::Validate, Phase::Failed]);
    }
    let mut c = config("nope", &[]);
    c.skip_download = true;
    let (machine, first) = Provisioner::new(c);
    assert_eq!(machine.error(), Some(Error::InvalidVersion));
    assert!(matches!(first.action, Action::Stop));
}

#[test]
fn non_empty_target_fails_before_any_network_request() {
    let mut events = fresh_run_events(true, false, false);
    events[0] = Event::Target { present: true, entries: 1 };
    let (machine, replies) = run(config("latest", &[]), events);
    assert_eq!(machine.step(), Step::Failed);
    assert_eq!(machine.error(), Some(Error::NonEmptyTarget));
    assert_eq!(actions(&replies), vec!["inspect target", "stop"]);
    assert_eq!(phases(&replies), vec![Phase::Start, Phase::Validate, Phase::Failed]);
}

#[test]
fn downloads_page_without_version_is_not_found() {
    let events = vec![
        Event::Target { present: false, entries: 0 },
        Event::Page("<html>new layout</html>".to_string()),
        release_page(),
    ];
    let (machine, replies) = run(config("latest", &[]), events);
    assert_eq!(machine.error(), Some(Error::NotFound(Lookup::LatestVersion)));
    assert_eq!(actions(&replies), vec!["inspect target", "fetch https://www.python.org/downloads/windows/", "stop"]);
}

#[test]
fn downloads_page_with_a_two_part_version_is_not_found() {
    let events = vec![
        Event::Target { present: false, entries: 0 },
        Event::Page("Latest Python 3 Release - Python 3.9 is out".to_string()),
        release_page(),
    ];
    let (machine, replies) = run(config("latest", &[]), events);
    assert_eq!(machine.step(), Step::Failed);
    assert_eq!(machine.error(), Some(Error::NotFound(Lookup::LatestVersion)));
    assert_eq!(actions(&replies), vec!["inspect target", "fetch https://www.python.org/downloads/windows/", "stop"]);
}

#[test]
fn request_keeps_its_directories() {
    let mut c = config("3.8.6", &[]);
    c.dir = std::path::PathBuf::from("work");
    c.cache_dir = std::path::PathBuf::from("cache");
    let (mut machine, _) = Provisioner::new(c);
    assert_eq!(machine.config().dir, std::path::PathBuf::from("work"));
    assert_eq!(machine.config().cache_dir, std::path::PathBuf::from("cache"));
    machine.advance(Event::Target { present: false, entries: 0 });
    machine.advance(release_page());
    assert_eq!(machine.config().dir, std::path::PathBuf::from("work"));
    assert_eq!(machine.config().cache_dir, std::path::PathBuf::from("cache"));
    assert_eq!(machine.config().pyver, "3.8.6");
}

#[test]
fn release_page_without_archive_is_not_found() {
    let events = vec![Event::Target { present: false, entries: 0 }, Event::Page("nothing".to_string())];
    let (machine, _) = run(config("3.8.6", &[]), events);
    assert_eq!(machine.error(), Some(Error::NotFound(Lookup::DownloadInfo)));
}

#[test]
fn verified_archive_in_cache_is_not_fetched_again() {
    let events = vec![
        Event::Target { present: false, entries: 0 },
        release_page(),
        Event::Archive(Some(ARCHIVE.to_vec())),
    ];
    let (machine, replies) = run(config("3.8.6", &[]), events);
    assert_eq!(machine.step(), Step::Extracting);
    assert_eq!(describe(&replies[3].action), "extract python-3.8.6-embed-amd64.zip");
    assert_eq!(replies[3].logs[0].message, "文件已存在，跳过下载");
}

#[test]
fn stale_archive_in_cache_is_fetched_again() {
    let events = vec![
        Event::Target { present: false, entries: 0 },
        release_page(),
        Event::Archive(Some(b"old".to_vec())),
    ];
    let (machine, replies) = run(config("3.8.6", &[]), events);
    assert_eq!(machine.step(), Step::Downloading);
    assert!(describe(&replies[3].action).starts_with("download https://"));
}

#[test]
fn wrong_hash_fails_and_nothing_is_saved() {
    let events = vec![
        Event::Target { present: false, entries: 0 },
        release_page(),
        Event::Archive(None),
        Event::Downloaded(b"tampered".to_vec()),
        Event::Done,
    ];
    let (machine, replies) = run(config("3.8.6", &[]), events);
    assert_eq!(machine.error(), Some(Error::HashMismatch));
    assert_eq!(replies.len(), 5);
    assert!(matches!(replies[4].action, Action::Stop));
    assert!(!actions(&replies).iter().any(|a| a.starts_with("save")));
    let logs: Vec<String> = replies[4].logs.iter().map(|r| r.message.clone()).collect();
    assert_eq!(logs[0], "校验文件完整性 ...");
    assert_eq!(logs[1], "文件哈希不匹配");
    assert_eq!(logs[2], format!("预期：{}", HASH.to_uppercase()));
    assert_eq!(logs[3], format!("实际：{:x}", md5::compute(b"tampered")));
}

fn skip_config(packages: &[&str]) -> Config {
    let mut c = config("latest", packages);
    c.skip_download = true;
    c
}

fn skip_events(script_present: bool) -> Vec<Event> {
    let mut events = vec![version_output(), Event::Present(script_present)];
    if !script_present {
        events.push(Event::Downloaded(b"script".to_vec()));
        events.push(Event::Done);
    }
    events.push(version_output());
    events.push(Event::Content(Some("import site".to_string())));
    events.push(Event::Done);
    events.extend([ok(), ok(), ok(), ok(), ok()]);
    events.push(Event::Output { code: Some(0), stdout: String::new() });
    events.push(ok());
    events.push(tree());
    events.push(Event::Done);
    events.push(Event::Done);
    events
}

#[test]
fn run_on_existing_tree_fetches_no_archive() {
    let (machine, replies) = run(skip_config(&["six"]), skip_events(true));
    assert_eq!(machine.step(), Step::Done);
    assert_eq!(
        phases(&replies),
        vec![
            Phase::Start,
            Phase::Validate,
            Phase::ReadLocalVersion,
            Phase::FixupPath,
            Phase::BootstrapPkgmgr,
            Phase::InstallCore,
            Phase::InstallUserPkgs,
            Phase::Compile,
            Phase::List,
            Phase::Cleanup,
            Phase::Done
        ]
    );
    let acts = actions(&replies);
    assert_eq!(acts[0], "capture QueryVersion");
    assert_eq!(acts[1], "check script");
    assert_eq!(acts[2], "capture QueryVersion");
    assert!(!acts.iter().any(|a| a.starts_with("fetch")
        || a.starts_with("download")
        || a.starts_with("read python")
        || a.starts_with("save")
        || a.starts_with("extract")
        || a == "inspect target"));
    assert_eq!(replies[1].logs[0].message, "本地版本：3.8.6");
}

#[test]
fn run_on_existing_tree_fetches_missing_script() {
    let (machine, replies) = run(skip_config(&["six"]), skip_events(false));
    assert_eq!(machine.step(), Step::Done);
    let acts = actions(&replies);
    assert_eq!(acts[2], "download script https://bootstrap.pypa.io/get-pip.py");
    assert_eq!(acts[3], "save script 6");
    assert_eq!(acts[4], "capture QueryVersion");
    assert_eq!(acts.iter().filter(|a| a.starts_with("download")).count(), 1);
}

#[test]
fn unusable_local_interpreter_is_local_version_error() {
    let (machine, _) = run(skip_config(&[]), vec![Event::Output { code: Some(1), stdout: "boom".to_string() }]);
    assert_eq!(machine.error(), Some(Error::LocalVersion));
    let (machine, replies) = run(
        skip_config(&[]),
        vec![Event::Failed { error: Error::Io, detail: "python.exe not found".to_string() }],
    );
    assert_eq!(machine.error(), Some(Error::LocalVersion));
    assert_eq!(replies[1].logs[0].level, Level::Error);
    assert_eq!(replies[1].logs[0].message, "python.exe not found");
}

#[test]
fn missing_pth_is_missing_config() {
    let events = vec![version_output(), Event::Present(true), version_output(), Event::Content(None)];
    let (machine, replies) = run(skip_config(&[]), events);
    assert_eq!(machine.error(), Some(Error::MissingConfig));
    assert_eq!(describe(&replies[3].action), "read pth python38._pth");
}

fn until_bootstrap() -> Vec<Event> {
    vec![
        version_output(),
        Event::Present(true),
        version_output(),
        Event::Content(Some("import site".to_string())),
        Event::Done,
    ]
}

#[test]
fn failing_commands_fail_the_run_with_their_exit_code() {
    let cases: Vec<(usize, Error)> = vec![
        (0, Error::Bootstrap(Some(2))),
        (1, Error::Install(Some(2))),
        (2, Error::Install(Some(2))),
        (3, Error::Install(Some(2))),
        (4, Error::Compile(Some(2))),
    ];
    for (successes, error) in cases {
        let mut events = until_bootstrap();
        for _ in 0..successes {
            events.push(ok());
        }
        events.push(Event::Exited(Some(2)));
        events.push(ok());
        let (machine, replies) = run(skip_config(&["six"]), events);
        assert_eq!(machine.step(), Step::Failed);
        assert_eq!(machine.error(), Some(error));
        assert!(matches!(replies.last().unwrap().action, Action::Stop));
        assert_eq!(replies.len(), 6 + successes + 1);
    }
}

#[test]
fn failed_listing_is_only_a_warning() {
    let mut events = until_bootstrap();
    events.extend([ok(), ok(), ok(), ok(), ok()]);
    events.push(Event::Output { code: Some(1), stdout: "raw".to_string() });
    let (machine, replies) = run(skip_config(&["six"]), events);
    assert_eq!(machine.step(), Step::Uninstalling);
    let logs: Vec<(Level, String)> =
        replies.last().unwrap().logs.iter().map(|r| (r.level, r.message.clone())).collect();
    assert_eq!(
        logs,
        vec![
            (Level::Info, "raw".to_string()),
            (Level::Warn, "pip list 失败 [exit code: 1]".to_string()),
            (Level::Warn, "正在清理 ...".to_string()),
        ]
    );
}

fn until_cleanup(packages: bool) -> Vec<Event> {
    let mut events = until_bootstrap();
    events.extend([ok(), ok(), ok(), ok()]);
    if packages {
        events.push(ok());
    }
    events.push(Event::Output { code: Some(0), stdout: "six 1.15.0".to_string() });
    events
}

#[test]
fn package_manager_is_uninstalled_unless_kept() {
    let (machine, replies) = run(skip_config(&["six"]), until_cleanup(true));
    assert_eq!(machine.step(), Step::Uninstalling);
    assert_eq!(describe(&replies.last().unwrap().action), "run -m pip uninstall -y setuptools wheel pip");

    let mut kept = skip_config(&["six"]);
    kept.keep_pip = true;
    let (machine, replies) = run(kept, until_cleanup(true));
    assert_eq!(machine.step(), Step::InspectingTree);
    assert!(!actions(&replies).iter().any(|a| a.contains("uninstall")));

    for name in ["pip", "setuptools", "wheel"] {
        let (machine, replies) = run(skip_config(&["six", name]), until_cleanup(true));
        assert_eq!(machine.step(), Step::InspectingTree, "{}", name);
        assert!(!actions(&replies).iter().any(|a| a.contains("uninstall")));
    }
    let (machine, _) = run(skip_config(&["pip3", "Pip", "wheel "]), until_cleanup(true));
    assert_eq!(machine.step(), Step::Uninstalling);
}

#[test]
fn successful_run_uninstalls_exactly_once_after_the_list() {
    let (machine, replies) = run(config("latest", &["requests"]), fresh_run_events(true, true, false));
    assert_eq!(machine.step(), Step::Done);
    let acts = actions(&replies);
    let wanted = "run -m pip uninstall -y setuptools wheel pip";
    assert_eq!(acts.iter().filter(|a| a.as_str() == wanted).count(), 1);
    let at = acts.iter().position(|a| a == wanted).unwrap();
    assert_eq!(acts[at - 1], "capture List");
    assert_eq!(replies[at].entered, vec![Phase::Cleanup]);

    let mut kept = config("latest", &["requests"]);
    kept.keep_pip = true;
    let (machine, replies) = run(kept, fresh_run_events(true, true, true));
    assert_eq!(machine.step(), Step::Done);
    assert_eq!(actions(&replies).iter().filter(|a| a.contains("uninstall")).count(), 0);

    let (machine, replies) = run(skip_config(&["six"]), skip_events(true));
    assert_eq!(machine.step(), Step::Done);
    assert_eq!(actions(&replies).iter().filter(|a| a.as_str() == wanted).count(), 1);
}

#[test]
fn fetched_version_always_has_three_parts() {
    for (pyver, page, want) in [
        ("latest", "Latest Python 3 Release - Python 3.8.6", Some("python-386")),
        ("", "Latest Python 3 Release - Python 3.10.11 now", Some("python-31011")),
        ("latest", "Latest Python 3 Release - Python 3.9 is out", None),
        ("latest", "Latest Python 3 Release - Python 3.9.", None),
    ] {
        let events = vec![Event::Target { present: false, entries: 0 }, Event::Page(page.to_string())];
        let (machine, replies) = run(config(pyver, &[]), events);
        match want {
            Some(part) => {
                assert_eq!(machine.step(), Step::FetchingRelease);
                assert_eq!(
                    describe(&replies[2].action),
                    format!("fetch https://www.python.org/downloads/release/{}/", part)
                );
            }
            None => {
                assert_eq!(machine.error(), Some(Error::NotFound(Lookup::LatestVersion)));
                assert!(!actions(&replies).iter().any(|a| a.contains("/release/")));
            }
        }
    }
}

#[test]
fn failed_uninstall_fails_the_run() {
    let mut events = until_cleanup(false);
    events.push(Event::Exited(Some(1)));
    let (machine, _) = run(skip_config(&[]), events);
    assert_eq!(machine.error(), Some(Error::Cleanup(Cleaning::Uninstall(Some(1)))));
}

#[test]
fn nothing_is_looked_up_when_everything_is_kept() {
    let mut c = skip_config(&[]);
    c.keep_pip = true;
    c.keep_scripts = true;
    c.keep_dist_info = true;
    let (machine, replies) = run(c, until_cleanup(false));
    assert_eq!(machine.step(), Step::Done);
    let last = replies.last().unwrap();
    assert_eq!(last.entered, vec![Phase::Cleanup, Phase::Done]);
    assert!(matches!(last.action, Action::Stop));
    assert_eq!(last.logs.last().unwrap().message, "完成！");
}

#[test]
fn tree_is_looked_up_only_where_something_may_go() {
    let mut c = skip_config(&[]);
    c.keep_pip = true;
    c.keep_scripts = true;
    let (_, replies) = run(c, until_cleanup(false));
    assert_eq!(describe(&replies.last().unwrap().action), "inspect tree false true");

    let mut c = skip_config(&[]);
    c.keep_pip = true;
    c.keep_dist_info = true;
    let mut events = until_cleanup(false);
    events.push(tree());
    events.push(Event::Done);
    let (machine, replies) = run(c, events);
    assert_eq!(machine.step(), Step::Done);
    let acts = actions(&replies);
    assert_eq!(acts[acts.len() - 3], "inspect tree true false");
    assert_eq!(acts[acts.len() - 2], "remove Scripts");
    assert_eq!(replies[replies.len() - 2].logs[0].message, "删除目录：Scripts");
    assert_eq!(acts[acts.len() - 1], "stop");
}

#[test]
fn failed_removal_is_a_cleanup_error() {
    let mut c = skip_config(&[]);
    c.keep_pip = true;
    let mut events = until_cleanup(false);
    events.push(tree());
    events.push(Event::Failed { error: Error::Io, detail: "access denied".to_string() });
    let (machine, _) = run(c, events);
    assert_eq!(machine.error(), Some(Error::Cleanup(Cleaning::Removal)));
}

#[test]
fn failed_extraction_is_an_extraction_error() {
    let events = vec![
        Event::Target { present: false, entries: 0 },
        release_page(),
        Event::Archive(Some(ARCHIVE.to_vec())),
        Event::Failed { error: Error::Io, detail: "invalid Zip archive".to_string() },
    ];
    let (machine, _) = run(config("3.8.6", &[]), events);
    assert_eq!(machine.error(), Some(Error::Extraction));
}

#[test]
fn refused_download_keeps_its_status() {
    let events = vec![
        Event::Target { present: false, entries: 0 },
        release_page(),
        Event::Archive(None),
        Event::Failed { error: Error::HttpStatus(404), detail: String::new() },
    ];
    let (machine, _) = run(config("3.8.6", &[]), events);
    assert_eq!(machine.error(), Some(Error::HttpStatus(404)));
}

#[test]
fn failure_of_the_environment_is_kept_as_it_is() {
    let events = vec![
        Event::Target { present: false, entries: 0 },
        Event::Failed { error: Error::Io, detail: "connection reset".to_string() },
    ];
    let (machine, replies) = run(config("latest", &[]), events);
    assert_eq!(machine.step(), Step::Failed);
    assert_eq!(machine.error(), Some(Error::Io));
    assert_eq!(replies[2].entered, vec![Phase::Failed]);
    assert_eq!(replies[2].logs.len(), 1);
    assert_eq!(replies[2].logs[0].level, Level::Error);
    assert_eq!(replies[2].logs[0].message, "connection reset");

    let events = vec![
        Event::Target { present: false, entries: 0 },
        release_page(),
        Event::Archive(None),
        Event::Failed { error: Error::InvalidLength, detail: String::new() },
    ];
    let (machine, _) = run(config("3.8.6", &[]), events);
    assert_eq!(machine.error(), Some(Error::InvalidLength));
}

#[test]
fn answer_of_the_wrong_kind_is_unexpected() {
    let (machine, replies) = run(config("3.8.6", &[]), vec![Event::Done]);
    assert_eq!(machine.error(), Some(Error::Unexpected));
    assert!(matches!(replies[1].action, Action::Stop));
}

#[test]
fn ended_run_stays_as_it_is() {
    let (mut machine, _) = Provisioner::new(config("bad", &[]));
    assert!(machine.is_over());
    let reply = machine.advance(Event::Done);
    assert!(matches!(reply.action, Action::Stop));
    assert!(reply.entered.is_empty());
    assert!(reply.logs.is_empty());
    assert_eq!(machine.error(), Some(Error::InvalidVersion));
    let reply = machine.advance(Event::Failed { error: Error::Io, detail: "late".to_string() });
    assert!(reply.logs.is_empty());
    assert_eq!(machine.error(), Some(Error::InvalidVersion));
}

#[test]
fn mirrors_go_to_their_commands() {
    let mut c = skip_config(&["six"]);
    c.python_mirror = "https://core/simple".to_string();
    c.pip_mirror = "https://user/simple".to_string();
    let mut events = until_bootstrap();
    events.extend([ok(), ok(), ok()]);
    let (_, replies) = run(c, events);
    let acts = actions(&replies);
    let n = acts.len();
    assert_eq!(acts[n - 4], "run - --no-cache-dir --no-warn-script-location -i https://core/simple");
    assert_eq!(acts[n - 3], "run -m pip install --no-cache-dir --no-warn-script-location -U -i https://core/simple pip");
    assert_eq!(acts[n - 2], "run -m pip install --no-cache-dir --no-warn-script-location -U -i https://core/simple setuptools wheel");
    assert_eq!(acts[n - 1], "run -m pip install --no-cache-dir --no-warn-script-location -U -i https://user/simple six");
}

#[test]
fn optimization_level_goes_to_the_compile_pass() {
    let mut c = skip_config(&[]);
    c.optimize = 2;
    let mut events = until_bootstrap();
    events.extend([ok(), ok(), ok()]);
    let (machine, replies) = run(c, events);
    assert_eq!(machine.step(), Step::Compiling);
    match &replies.last().unwrap().action {
        Action::Run(cmd) => {
            assert_eq!(cmd.purpose, Purpose::Compile);
            assert_eq!(words(cmd), vec!["-", "<target>", "2"]);
            assert!(matches!(cmd.input, Input::Script(_)));
        }
        _ => panic!("the compile pass is a command"),
    }
}

#[test]
fn default_request() {
    let c = Config::default();
    assert_eq!(c.pyver, "latest");
    assert!(!c.is32 && !c.skip_download && !c.keep_scripts && !c.keep_dist_info && !c.keep_pip);
    assert_eq!(c.pip_mirror, "");
    assert_eq!(c.python_mirror, "");
    assert_eq!(c.optimize, 0);
    assert!(c.packages.is_empty());
    assert!(c.wants_latest());
    assert_eq!(c.validate(), Ok(()));
    assert!(!c.keeps_pip());
}

#[test]
fn fresh_64_bit_run_for_3_8_6_keeps_packages_and_drops_scripts() {
    let (machine, replies) = run(config("3.8.6", &["requests"]), fresh_run_events(false, true, false));
    assert_eq!(machine.step(), Step::Done);
    let acts = actions(&replies);
    assert!(acts.contains(&"read python-3.8.6-embed-amd64.zip".to_string()));
    assert!(acts.contains(&"save python-3.8.6-embed-amd64.zip 11".to_string()));
    assert!(acts.contains(&"extract python-3.8.6-embed-amd64.zip".to_string()));
    assert!(acts.contains(&"remove Scripts".to_string()));
    let removed: Vec<&String> = acts.iter().filter(|a| a.starts_with("remove ")).collect();
    assert_eq!(removed, vec!["remove Scripts", "remove Lib/site-packages/requests-2.24.0.dist-info"]);
    assert!(!acts.iter().any(|a| a == "remove Lib/site-packages" || a == "remove Lib/site-packages/requests"));
}

#[test]
fn steps_belong_to_phases() {
    assert_eq!(Step::InspectingTarget.phase(), Phase::Validate);
    assert_eq!(Step::FetchingLatest.phase(), Phase::ResolveVersion);
    for step in [Step::FetchingRelease, Step::ReadingCache, Step::Downloading, Step::SavingArchive] {
        assert_eq!(step.phase(), Phase::DownloadVerify);
    }
    assert_eq!(Step::Extracting.phase(), Phase::Extract);
    assert_eq!(Step::ReadingLocalVersion.phase(), Phase::ReadLocalVersion);
    for step in [
        Step::CheckingScript,
        Step::DownloadingScript,
        Step::SavingScript,
        Step::QueryingVersion,
        Step::ReadingPth,
        Step::WritingPth,
    ] {
        assert_eq!(step.phase(), Phase::FixupPath);
    }
    assert_eq!(Step::Bootstrapping.phase(), Phase::BootstrapPkgmgr);
    assert_eq!(Step::UpgradingPip.phase(), Phase::InstallCore);
    assert_eq!(Step::InstallingTools.phase(), Phase::InstallCore);
    assert_eq!(Step::InstallingPackages.phase(), Phase::InstallUserPkgs);
    assert_eq!(Step::Compiling.phase(), Phase::Compile);
    assert_eq!(Step::Listing.phase(), Phase::List);
    for step in [Step::Uninstalling, Step::InspectingTree, Step::Removing] {
        assert_eq!(step.phase(), Phase::Cleanup);
    }
    assert_eq!(Step::Done.phase(), Phase::Done);
    assert_eq!(Step::Failed.phase(), Phase::Failed);
}

#[test]
fn removal_paths() {
    assert_eq!(Removal::Scripts.path(), "Scripts");
    assert_eq!(Removal::Metadata("a.dist-info".to_string()).path(), "Lib/site-packages/a.dist-info");
}
