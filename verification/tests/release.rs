use pyembed_downloader::release::{archive_name, release_page_url, BOOTSTRAP_FILE, BOOTSTRAP_URL, DOWNLOADS_PAGE, TARGET_DIR};

#[test]
fn archive_name_for_64_bit() {
    assert_eq!(archive_name("3.8.6", false), "python-3.8.6-embed-amd64.zip");
}

#[test]
fn archive_name_for_32_bit_build() {
    assert_eq!(archive_name("3.8.6", true), "python-3.8.6-embed-x86.zip");
}

#[test]
fn release_page_has_no_dots() {
    assert_eq!(release_page_url("3.8.6"), "https://www.python.org/downloads/release/python-386/");
    assert_eq!(release_page_url("3.10.11"), "https://www.python.org/downloads/release/python-31011/");
}

#[test]
fn fixed_names() {
    assert_eq!(DOWNLOADS_PAGE, "https://www.python.org/downloads/windows/");
    assert_eq!(BOOTSTRAP_URL, "https://bootstrap.pypa.io/get-pip.py");
    assert_eq!(BOOTSTRAP_FILE, "get-pip.py");
    assert_eq!(TARGET_DIR, "pyembed_runtime");
}
