use pyembed_downloader::error::Error;
use pyembed_downloader::Config;

fn with(pyver: &str, keep_pip: bool, packages: &[&str]) -> Config {
    let mut c = Config::default();
    c.pyver = pyver.to_string();
    c.keep_pip = keep_pip;
    c.packages = packages.iter().map(|p| p.to_string()).collect();
    c
}

#[test]
fn latest_and_empty_ask_for_the_newest_release() {
    assert!(with("latest", false, &[]).wants_latest());
    assert!(with("", false, &[]).wants_latest());
    assert!(!with("3.8.6", false, &[]).wants_latest());
    assert!(!with("Latest", false, &[]).wants_latest());
    assert!(!with(" ", false, &[]).wants_latest());
}

#[test]
fn selector_is_validated() {
    for good in ["latest", "", "3.8.6", "0.0.0", "3.10.11"] {
        assert_eq!(with(good, false, &[]).validate(), Ok(()), "{:?}", good);
    }
    for bad in ["3", "3.8", "3.8.6.0", "a.b.c", "3.8.6 ", "LATEST", "-3.8.6", "3..6"] {
        assert_eq!(with(bad, false, &[]).validate(), Err(Error::InvalidVersion), "{:?}", bad);
    }
}

#[test]
fn package_manager_stays_when_kept_or_asked_for() {
    assert!(!with("latest", false, &[]).keeps_pip());
    assert!(!with("latest", false, &["requests", "pipenv", "wheels"]).keeps_pip());
    assert!(with("latest", true, &[]).keeps_pip());
    assert!(with("latest", false, &["requests", "pip"]).keeps_pip());
    assert!(with("latest", false, &["setuptools"]).keeps_pip());
    assert!(with("latest", false, &["wheel", "x"]).keeps_pip());
    assert!(!with("latest", false, &["pip==20.0"]).keeps_pip());
}

#[test]
fn request_can_be_copied() {
    let c = with("3.8.6", true, &["six"]);
    let d = c.clone();
    assert_eq!(d.pyver, "3.8.6");
    assert!(d.keep_pip);
    assert_eq!(d.packages, vec!["six"]);
}
