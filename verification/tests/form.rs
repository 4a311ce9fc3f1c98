use pyembed_downloader::error::Error;
use pyembed_downloader::form::{Form, MainProc};
use pyembed_downloader::text::words;
use pyembed_downloader::Config;
use std::path::PathBuf;

fn filled(version_checked: bool, version: &str, packages: &str) -> Form {
    Form {
        dir: PathBuf::from("work"),
        version_checked,
        version: version.to_string(),
        is32: true,
        skip_download: true,
        mirror: "https://mirror/simple".to_string(),
        keep_scripts: true,
        keep_dist_info: false,
        keep_pip: true,
        packages: packages.to_string(),
    }
}

#[test]
fn words_match_std() {
    for s in ["", " ", "a", " a ", "a b", "requests\r\nnumpy==1.19\r\n", "\t x\u{3000}y  z", "one"] {
        let chars: Vec<char> = s.chars().collect();
        let got: Vec<String> = words(&chars).into_iter().map(|w| w.into_iter().collect()).collect();
        let want: Vec<String> = s.split_whitespace().map(|w| w.to_string()).collect();
        assert_eq!(got, want, "{:?}", s);
    }
}

#[test]
fn form_shows_the_request() {
    let mut config = Config::default();
    config.dir = PathBuf::from("somewhere");
    config.pyver = "3.8.6".to_string();
    config.pip_mirror = "https://m".to_string();
    config.keep_pip = true;
    config.packages = vec!["requests".to_string(), "six".to_string()];
    let form = MainProc { config: &mut config }.form();
    assert_eq!(form.dir, PathBuf::from("somewhere"));
    assert!(form.version_checked);
    assert_eq!(form.version, "3.8.6");
    assert_eq!(form.mirror, "https://m");
    assert!(form.keep_pip && !form.keep_scripts && !form.keep_dist_info && !form.is32 && !form.skip_download);
    assert_eq!(form.packages, "requests\r\nsix\r\n");
    assert!(!form.names_no_package());

    let mut plain = Config::default();
    let form = MainProc { config: &mut plain }.form();
    assert!(!form.version_checked);
    assert_eq!(form.version, "latest");
    assert_eq!(form.packages, "");
    assert!(form.names_no_package());
}

#[test]
fn submitted_form_becomes_the_request() {
    let mut config = Config::default();
    config.cache_dir = PathBuf::from("cache");
    config.python_mirror = "https://core".to_string();
    config.optimize = 2;
    let r = MainProc { config: &mut config }.submit(&filled(true, "3.8.6", " requests\r\n numpy==1.19 \r\n"));
    assert_eq!(r, Ok(()));
    assert_eq!(config.dir, PathBuf::from("work"));
    assert_eq!(config.pyver, "3.8.6");
    assert!(config.is32 && config.skip_download && config.keep_scripts && !config.keep_dist_info && config.keep_pip);
    assert_eq!(config.pip_mirror, "https://mirror/simple");
    assert_eq!(config.packages, vec!["requests", "numpy==1.19"]);
    assert_eq!(config.cache_dir, PathBuf::from("cache"));
    assert_eq!(config.python_mirror, "https://core");
    assert_eq!(config.optimize, 2);
}

#[test]
fn unchecked_or_empty_version_means_latest() {
    for form in [filled(false, "3.8.6", ""), filled(true, "", ""), filled(false, "garbage", ""), filled(true, "latest", "")] {
        let mut config = Config::default();
        config.pyver = "3.7.0".to_string();
        assert_eq!(MainProc { config: &mut config }.submit(&form), Ok(()));
        assert_eq!(config.pyver, "latest");
        assert!(config.packages.is_empty());
    }
}

#[test]
fn bad_version_changes_nothing() {
    for version in ["3.8", "3.8.6b1", "newest", " "] {
        let mut config = Config::default();
        config.packages = vec!["six".to_string()];
        let r = MainProc { config: &mut config }.submit(&filled(true, version, "requests"));
        assert_eq!(r, Err(Error::InvalidVersion));
        assert_eq!(config.pyver, "latest");
        assert_eq!(config.packages, vec!["six"]);
        assert!(!config.is32 && !config.skip_download && !config.keep_pip);
        assert_eq!(config.dir, PathBuf::new());
    }
}
