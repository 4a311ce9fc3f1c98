use pyembed_downloader::command::{
    compile, list_command, new_python_command, outcome, pip_install, pip_uninstall, setup_pip,
    version_command, Arg, Command, Input, Place, Purpose, Stream, COMPILE_SCRIPT, ENCODING,
    ENCODING_VARIABLE, INTERPRETER,
};
use pyembed_downloader::error::{Cleaning, Error, Lookup};

fn words(cmd: &Command) -> Vec<String> {
    cmd.args
        .iter()
        .map(|a| match a {
            Arg::Text(s) => s.clone(),
            Arg::TargetDir => "<target>".to_string(),
        })
        .collect()
}

fn runs_the_trees_interpreter(cmd: &Command) {
    match &cmd.program {
        Place::InTarget(name) => assert_eq!(name, "python.exe"),
        Place::Target => panic!("the program is a file in the tree"),
    }
    assert!(matches!(cmd.directory, Place::Target));
    assert_eq!(cmd.env, vec![("PYTHONIOENCODING".to_string(), "utf-8".to_string())]);
    assert_eq!(cmd.stdout, Stream::Piped);
    assert_eq!(cmd.stderr, Stream::Piped);
}

#[test]
fn bare_command_has_no_arguments() {
    let cmd = new_python_command(Purpose::Install);
    assert_eq!(cmd.purpose, Purpose::Install);
    assert!(cmd.args.is_empty());
    assert!(matches!(cmd.input, Input::Nothing));
    runs_the_trees_interpreter(&cmd);
    assert_eq!(INTERPRETER, "python.exe");
    assert_eq!(ENCODING_VARIABLE, "PYTHONIOENCODING");
    assert_eq!(ENCODING, "utf-8");
}

#[test]
fn every_command_runs_the_trees_interpreter_in_the_tree() {
    let packages = vec!["six".to_string()];
    for cmd in [
        version_command(),
        setup_pip(Some("https://m")),
        pip_install(&packages, None),
        pip_uninstall(&packages),
        list_command(),
        compile(1),
    ] {
        runs_the_trees_interpreter(&cmd);
    }
}

#[test]
fn version_query_prints_three_numbers() {
    let cmd = version_command();
    assert_eq!(cmd.purpose, Purpose::QueryVersion);
    assert_eq!(
        words(&cmd),
        vec![
            "-c",
            "import sys; vi = sys.version_info; print(\"%d.%d.%d\" % (vi.major, vi.minor, vi.micro))"
        ]
    );
    assert!(matches!(cmd.input, Input::Nothing));
}

#[test]
fn bootstrap_reads_the_script_from_standard_input() {
    let cmd = setup_pip(None);
    assert_eq!(cmd.purpose, Purpose::Bootstrap);
    assert_eq!(words(&cmd), vec!["-", "--no-cache-dir", "--no-warn-script-location"]);
    assert!(matches!(cmd.input, Input::BootstrapScript));
}

#[test]
fn bootstrap_with_mirror() {
    let cmd = setup_pip(Some("https://pypi.tuna.tsinghua.edu.cn/simple"));
    assert_eq!(
        words(&cmd),
        vec!["-", "--no-cache-dir", "--no-warn-script-location", "-i", "https://pypi.tuna.tsinghua.edu.cn/simple"]
    );
    assert_eq!(words(&setup_pip(Some(""))), vec!["-", "--no-cache-dir", "--no-warn-script-location"]);
}

#[test]
fn install_upgrades_all_packages_in_one_command() {
    let packages = vec!["requests".to_string(), "numpy==1.19".to_string()];
    let cmd = pip_install(&packages, Some("https://mirror/simple"));
    assert_eq!(cmd.purpose, Purpose::Install);
    assert_eq!(
        words(&cmd),
        vec![
            "-m", "pip", "install", "--no-cache-dir", "--no-warn-script-location", "-U", "-i",
            "https://mirror/simple", "requests", "numpy==1.19"
        ]
    );
    let plain = pip_install(&packages, Some(""));
    assert_eq!(
        words(&plain),
        vec!["-m", "pip", "install", "--no-cache-dir", "--no-warn-script-location", "-U", "requests", "numpy==1.19"]
    );
    assert_eq!(
        words(&pip_install(&vec![], None)),
        vec!["-m", "pip", "install", "--no-cache-dir", "--no-warn-script-location", "-U"]
    );
}

#[test]
fn uninstall_does_not_ask() {
    let packages = vec!["setuptools".to_string(), "wheel".to_string(), "pip".to_string()];
    let cmd = pip_uninstall(&packages);
    assert_eq!(cmd.purpose, Purpose::Uninstall);
    assert_eq!(words(&cmd), vec!["-m", "pip", "uninstall", "-y", "setuptools", "wheel", "pip"]);
}

#[test]
fn list_is_in_columns() {
    let cmd = list_command();
    assert_eq!(cmd.purpose, Purpose::List);
    assert_eq!(words(&cmd), vec!["-m", "pip", "list", "--format", "columns"]);
}

#[test]
fn compile_passes_target_and_level() {
    for level in [0u8, 1, 2, 255] {
        let cmd = compile(level);
        assert_eq!(cmd.purpose, Purpose::Compile);
        assert_eq!(words(&cmd), vec!["-".to_string(), "<target>".to_string(), level.to_string()]);
        match &cmd.input {
            Input::Script(text) => {
                assert_eq!(text, COMPILE_SCRIPT);
                assert!(text.contains("OPTIMIZE = int(sys.argv[2])"));
                assert!(text.contains("__pycache__"));
                assert!(text.contains(".dist-info"));
            }
            _ => panic!("the compile pass reads its script from standard input"),
        }
    }
}

#[test]
fn exit_code_zero_is_success() {
    for purpose in [Purpose::QueryVersion, Purpose::Bootstrap, Purpose::Install, Purpose::Compile, Purpose::List, Purpose::Uninstall] {
        assert_eq!(outcome(purpose, Some(0)), Ok(()));
    }
}

#[test]
fn other_exit_codes_fail_by_purpose() {
    assert_eq!(outcome(Purpose::Bootstrap, Some(1)), Err(Error::Bootstrap(Some(1))));
    assert_eq!(outcome(Purpose::Install, Some(2)), Err(Error::Install(Some(2))));
    assert_eq!(outcome(Purpose::Compile, Some(-1)), Err(Error::Compile(Some(-1))));
    assert_eq!(outcome(Purpose::List, Some(3)), Err(Error::List(Some(3))));
    assert_eq!(outcome(Purpose::Uninstall, None), Err(Error::Cleanup(Cleaning::Uninstall(None))));
    assert_eq!(outcome(Purpose::QueryVersion, Some(9)), Err(Error::LocalVersion));
}

#[test]
fn messages_carry_the_exit_code() {
    assert_eq!(Error::Bootstrap(Some(1)).message(), "安装 pip 失败 [exit code: 1]");
    assert_eq!(Error::Install(Some(-1073741819)).message(), "安装依赖包失败 [exit code: -1073741819]");
    assert_eq!(Error::Compile(Some(2)).message(), "编译失败 [exit code: 2]");
    assert_eq!(Error::List(Some(2)).message(), "pip list 失败 [exit code: 2]");
    assert_eq!(Error::Cleanup(Cleaning::Uninstall(None)).message(), "卸载依赖包失败 [terminated by a signal]");
    assert_eq!(Error::HttpStatus(404).message(), "http request failed with status code 404");
    assert_eq!(Error::InvalidVersion.message(), "版本号格式错误");
    assert_eq!(Error::HashMismatch.message(), "文件哈希不匹配");
    assert_eq!(Error::MissingConfig.message(), "pth 文件不存在");
    assert_eq!(Error::LocalVersion.message(), "无法获取本地 python 版本");
    assert_eq!(Error::NonEmptyTarget.message(), "目标目录非空");
    assert_eq!(Error::NotFound(Lookup::LatestVersion).message(), "找不到版本号");
    assert_eq!(Error::NotFound(Lookup::DownloadInfo).message(), "找不到信息");
    assert_eq!(Error::InvalidLength.message(), "invalid content length");
    assert_eq!(Error::Extraction.message(), "解压失败");
    assert_eq!(Error::Cleanup(Cleaning::Removal).message(), "清理失败");
    assert_eq!(Error::Cleanup(Cleaning::Uninstall(Some(1))).message(), "卸载依赖包失败 [exit code: 1]");
    assert_eq!(Error::Io.message(), "输入输出错误");
    assert_eq!(Error::Unexpected.message(), "unexpected response");
    assert_eq!(Error::HttpStatus(0).message(), "http request failed with status code 0");
    assert_eq!(Error::Bootstrap(Some(0)).message(), "安装 pip 失败 [exit code: 0]");
    assert_eq!(Error::Compile(Some(i32::MIN)).message(), "编译失败 [exit code: -2147483648]");
}
