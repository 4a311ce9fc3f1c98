[package]
name = "pyembed_downloader"
version = "0.1.0"
edition = "2021"
publish = false

[dependencies]
regex = "1"
md5 = "0.7"
zip = { version = "0.6", default-features = false, features = ["deflate"] }
bytes = "1"
log = "0.4"
reqwest = { version = "0.11", features = ["stream"] }
tokio = { version = "1", features = ["rt-multi-thread", "macros"] }
futures-util = "0.3"
clap = { version = "4", features = ["cargo"] }
atty = "0.2"
winapi = { version = "0.3", features = ["jobapi2", "processthreadsapi", "handleapi", "winnt", "minwindef", "winbase"] }
