//! The interpreter invocations of a provisioning run, as values: what to pass
//! on the command line, what to feed to standard input, and what a finished
//! invocation's exit code means.

use vstd::prelude::*;
use vstd::string::StringExecFns;
use crate::error::{Cleaning, Error};
use crate::number::{decimal, render};
use crate::text::string_of;

verus! {

/// What an invocation is run for. It decides which failure a non-zero exit
/// code stands for.
#[derive(Debug, Clone, Copy, PartialEq, Eq, Structural)]
pub enum Purpose {
    /// Ask the interpreter for its version.
    QueryVersion,
    /// Install the package manager from the bootstrap script.
    Bootstrap,
    /// Install or upgrade packages.
    Install,
    /// Byte-compile the installed packages.
    Compile,
    /// List the installed packages.
    List,
    /// Uninstall packages.
    Uninstall,
}

/// One command-line argument.
#[derive(Debug)]
pub enum Arg {
    /// The text as it stands.
    Text(String),
    /// The directory of the provisioned tree.
    TargetDir,
}

/// What an argument is, with its text as a sequence of characters.
pub enum ArgView {
    Text(Seq<char>),
    TargetDir,
}

impl View for Arg {
    type V = ArgView;

    open spec fn view(&self) -> ArgView {
        match self {
            Arg::Text(s) => ArgView::Text(s@),
            Arg::TargetDir => ArgView::TargetDir,
        }
    }
}

/// What the interpreter reads from standard input.
#[derive(Debug)]
pub enum Input {
    /// Nothing: standard input is closed.
    Nothing,
    /// This script.
    Script(String),
    /// The bootstrap script, from the file it was saved to.
    BootstrapScript,
}

/// What standard input is, with a script as a sequence of characters.
pub enum InputView {
    Nothing,
    Script(Seq<char>),
    BootstrapScript,
}

impl View for Input {
    type V = InputView;

    open spec fn view(&self) -> InputView {
        match self {
            Input::Nothing => InputView::Nothing,
            Input::Script(s) => InputView::Script(s@),
            Input::BootstrapScript => InputView::BootstrapScript,
        }
    }
}

/// A place in the file system that the caller knows how to find.
#[derive(Debug)]
pub enum Place {
    /// The directory of the provisioned tree.
    Target,
    /// The file of this name in the directory of the provisioned tree.
    InTarget(String),
}

/// A place, with its name as a sequence of characters.
pub enum PlaceView {
    Target,
    InTarget(Seq<char>),
}

impl View for Place {
    type V = PlaceView;

    open spec fn view(&self) -> PlaceView {
        match self {
            Place::Target => PlaceView::Target,
            Place::InTarget(name) => PlaceView::InTarget(name@),
        }
    }
}

/// Where one of the interpreter's output streams goes.
#[derive(Debug, Clone, Copy, PartialEq, Eq, Structural)]
pub enum Stream {
    /// To where the caller's own stream goes.
    Inherited,
    /// Nowhere.
    Discarded,
    /// Into a pipe that the caller reads.
    Piped,
}

/// One invocation of an interpreter: which program is run, in which
/// directory and with which environment variables set, with which arguments,
/// what it reads from standard input, and where its output goes.
#[derive(Debug)]
pub struct Command {
    pub purpose: Purpose,
    pub program: Place,
    pub directory: Place,
    pub env: Vec<(String, String)>,
    pub args: Vec<Arg>,
    pub input: Input,
    pub stdout: Stream,
    pub stderr: Stream,
}

/// An invocation, with its texts as sequences of characters.
pub struct CommandView {
    pub purpose: Purpose,
    pub program: PlaceView,
    pub directory: PlaceView,
    pub env: Seq<(Seq<char>, Seq<char>)>,
    pub args: Seq<ArgView>,
    pub input: InputView,
    pub stdout: Stream,
    pub stderr: Stream,
}

impl View for Command {
    type V = CommandView;

    open spec fn view(&self) -> CommandView {
        CommandView {
            purpose: self.purpose,
            program: self.program@,
            directory: self.directory@,
            env: env_views(self.env@),
            args: arg_views(self.args@),
            input: self.input@,
            stdout: self.stdout,
            stderr: self.stderr,
        }
    }
}

/// The environment variables, each by its name and value as texts.
pub open spec fn env_views(env: Seq<(String, String)>) -> Seq<(Seq<char>, Seq<char>)> {
    env.map_values(|pair: (String, String)| (pair.0@, pair.1@))
}

/// The arguments, each by its view.
pub open spec fn arg_views(args: Seq<Arg>) -> Seq<ArgView> {
    args.map_values(|a: Arg| a@)
}

/// The texts as arguments.
pub open spec fn texts(words: Seq<Seq<char>>) -> Seq<ArgView> {
    words.map_values(|w: Seq<char>| ArgView::Text(w))
}

/// The texts that a list of strings holds.
pub open spec fn string_views(words: Seq<String>) -> Seq<Seq<char>> {
    words.map_values(|w: String| w@)
}

/// The file name of the tree's interpreter.
pub const INTERPRETER: &'static str = "python.exe";

/// The environment variable that is set for every invocation, so that the
/// interpreter writes UTF-8.
pub const ENCODING_VARIABLE: &'static str = "PYTHONIOENCODING";

/// The value of the encoding variable.
pub const ENCODING: &'static str = "utf-8";

/// The invocation of the tree's interpreter that every other one starts
/// from: the interpreter is the file `INTERPRETER` in the tree's directory;
/// it runs in the tree's directory with `ENCODING_VARIABLE` set to
/// `ENCODING`; it gets no arguments and nothing on standard input; both its
/// output streams are piped.
pub open spec fn python(purpose: Purpose) -> CommandView {
    CommandView {
        purpose,
        program: PlaceView::InTarget(INTERPRETER@),
        directory: PlaceView::Target,
        env: seq![(ENCODING_VARIABLE@, ENCODING@)],
        args: Seq::empty(),
        input: InputView::Nothing,
        stdout: Stream::Piped,
        stderr: Stream::Piped,
    }
}

/// The arguments that select a package index: `-i` and the mirror's address
/// where a mirror is given and not empty, else none.
pub open spec fn mirror_args(mirror: Option<Seq<char>>) -> Seq<ArgView> {
    match mirror {
        Some(m) => if m.len() > 0 {
            texts(seq!["-i"@, m])
        } else {
            Seq::empty()
        },
        None => Seq::empty(),
    }
}

/// The text of a mirror, if one is given.
pub open spec fn mirror_view(mirror: Option<&str>) -> Option<Seq<char>> {
    match mirror {
        Some(m) => Some(m@),
        None => None,
    }
}

/// The invocation that asks the interpreter for its version.
pub open spec fn version_query() -> CommandView {
    CommandView {
        args: texts(
            seq![
                "-c"@,
                "import sys; vi = sys.version_info; print(\"%d.%d.%d\" % (vi.major, vi.minor, vi.micro))"@,
            ],
        ),
        input: InputView::Nothing,
        ..python(Purpose::QueryVersion)
    }
}

/// The invocation that installs the package manager: the bootstrap script
/// on standard input, without cache and without warnings about the scripts'
/// location, from the mirror if there is one.
pub open spec fn bootstrap(mirror: Option<Seq<char>>) -> CommandView {
    CommandView {
        args: texts(seq!["-"@, "--no-cache-dir"@, "--no-warn-script-location"@]) + mirror_args(
            mirror,
        ),
        input: InputView::BootstrapScript,
        ..python(Purpose::Bootstrap)
    }
}

/// The invocation that installs or upgrades `packages` in one go.
pub open spec fn install(packages: Seq<Seq<char>>, mirror: Option<Seq<char>>) -> CommandView {
    CommandView {
        args: texts(
            seq![
                "-m"@,
                "pip"@,
                "install"@,
                "--no-cache-dir"@,
                "--no-warn-script-location"@,
                "-U"@,
            ],
        ) + mirror_args(mirror) + texts(packages),
        input: InputView::Nothing,
        ..python(Purpose::Install)
    }
}

/// The invocation that uninstalls `packages` without asking.
pub open spec fn uninstall(packages: Seq<Seq<char>>) -> CommandView {
    CommandView {
        args: texts(seq!["-m"@, "pip"@, "uninstall"@, "-y"@]) + texts(packages),
        input: InputView::Nothing,
        ..python(Purpose::Uninstall)
    }
}

/// The invocation that lists the installed packages in columns.
pub open spec fn list() -> CommandView {
    CommandView {
        args: texts(seq!["-m"@, "pip"@, "list"@, "--format"@, "columns"@]),
        input: InputView::Nothing,
        ..python(Purpose::List)
    }
}

/// The invocation that byte-compiles the installed packages at the given
/// optimization level: the control script on standard input, the tree's
/// directory and the level as its arguments.
pub open spec fn compilation(optimize: u8) -> CommandView {
    CommandView {
        args: seq![
            ArgView::Text("-"@),
            ArgView::TargetDir,
            ArgView::Text(decimal(optimize as nat)),
        ],
        input: InputView::Script(COMPILE_SCRIPT@),
        ..python(Purpose::Compile)
    }
}

/// The control script of the compile pass. It walks `Lib/site-packages`
/// below the directory given as its first argument: a `__pycache__` directory
/// is deleted, a `.dist-info` directory is left alone, any other directory is
/// walked in turn; a `.py` file is compiled in place at the level given as
/// the second argument and then removed, unless compiling it fails, which is
/// reported and passed over. If no `.pyd` file was seen, the script says at
/// the end that the directory could go into one archive.
pub const COMPILE_SCRIPT: &'static str = r#"
# encoding: utf-8

import sys
import os
import py_compile
import shutil

ROOT = sys.argv[1]
OPTIMIZE = int(sys.argv[2])
FOUND_PYD = False

def compile(dir):
    sitedir = os.path.join(ROOT, "Lib", "site-packages")
    for i in os.listdir(os.path.join(sitedir, dir)):
        fullname = os.path.join(sitedir, dir, i)
        shortname = os.path.join(dir, i)
        if os.path.isdir(fullname):
            if i.lower() == "__pycache__":
                print(f"删除：{shortname}")
                shutil.rmtree(fullname)
            elif i.lower().endswith(".dist-info"):
                print(f"跳过：{shortname}")
            else:
                compile(shortname)
        elif os.path.isfile(fullname):
            if i.lower().endswith(".py"):
                print(f"编译：{shortname}")
                try:
                    py_compile.compile(fullname, cfile=fullname + "c", dfile=shortname, doraise=True, optimize=OPTIMIZE)
                except:
                    print(f"编译失败，跳过：{shortname}")
                else:
                    os.remove(fullname)
            elif i.lower().endswith(".pyd"):
                global FOUND_PYD
                FOUND_PYD = True
        else:
            print(f"未知文件类型：{shortname}")

compile(".")
if not FOUND_PYD:
    print("==========")
    print("没有发现 .pyd 文件，site-packages 目录也许可以被打包为 zip")
"#;

fn push_text(args: &mut Vec<Arg>, word: &str)
    ensures
        arg_views(final(args)@) == arg_views(old(args)@).push(ArgView::Text(word@)),
{
    args.push(Arg::Text(String::from_str(word)));
    assert(arg_views(args@) =~= arg_views(old(args)@).push(ArgView::Text(word@)));
}

fn push_mirror(args: &mut Vec<Arg>, mirror: Option<&str>)
    ensures
        arg_views(final(args)@) == arg_views(old(args)@) + mirror_args(mirror_view(mirror)),
{
    match mirror {
        Some(m) => {
            if !m.is_empty() {
                push_text(args, "-i");
                push_text(args, m);
                assert(arg_views(args@) =~= arg_views(old(args)@) + mirror_args(Some(m@)));
            } else {
                assert(arg_views(args@) =~= arg_views(old(args)@) + mirror_args(Some(m@)));
            }
        },
        None => {
            assert(arg_views(args@) =~= arg_views(old(args)@) + mirror_args(None));
        },
    }
}

fn push_packages(args: &mut Vec<Arg>, packages: &Vec<String>)
    ensures
        arg_views(final(args)@) == arg_views(old(args)@) + texts(string_views(packages@)),
{
    let mut i: usize = 0;
    let ghost all = texts(string_views(packages@));
    assert(arg_views(args@) =~= arg_views(old(args)@) + all.take(0));
    while i < packages.len()
        invariant
            i <= packages.len(),
            all == texts(string_views(packages@)),
            arg_views(args@) == arg_views(old(args)@) + all.take(i as int),
        decreases packages.len() - i,
    {
        push_text(args, packages[i].as_str());
        i += 1;
        assert(all.take(i as int) =~= all.take(i - 1).push(all[i - 1]));
        assert(arg_views(args@) =~= arg_views(old(args)@) + all.take(i as int));
    }
    assert(all.take(i as int) =~= all);
}

/// The invocation of the tree's interpreter that every other one starts
/// from: the program, its directory, its environment and its streams are
/// set; arguments and input are still to come.
pub fn new_python_command(purpose: Purpose) -> (cmd: Command)
    ensures
        cmd@ == python(purpose),
{
    let mut env: Vec<(String, String)> = Vec::new();
    env.push((String::from_str(ENCODING_VARIABLE), String::from_str(ENCODING)));
    let cmd = Command {
        purpose,
        program: Place::InTarget(String::from_str(INTERPRETER)),
        directory: Place::Target,
        env,
        args: Vec::new(),
        input: Input::Nothing,
        stdout: Stream::Piped,
        stderr: Stream::Piped,
    };
    assert(arg_views(cmd.args@) =~= Seq::empty());
    assert(env_views(cmd.env@) =~= seq![(ENCODING_VARIABLE@, ENCODING@)]);
    cmd
}

/// The invocation that asks the interpreter for its version.
pub fn version_command() -> (cmd: Command)
    ensures
        cmd@ == version_query(),
{
    let mut cmd = new_python_command(Purpose::QueryVersion);
    push_text(&mut cmd.args, "-c");
    push_text(
        &mut cmd.args,
        "import sys; vi = sys.version_info; print(\"%d.%d.%d\" % (vi.major, vi.minor, vi.micro))",
    );
    assert(arg_views(cmd.args@) =~= version_query().args);
    cmd
}

/// The invocation that installs the package manager from the bootstrap
/// script.
pub fn setup_pip(mirror: Option<&str>) -> (cmd: Command)
    ensures
        cmd@ == bootstrap(mirror_view(mirror)),
{
    let mut cmd = new_python_command(Purpose::Bootstrap);
    push_text(&mut cmd.args, "-");
    push_text(&mut cmd.args, "--no-cache-dir");
    push_text(&mut cmd.args, "--no-warn-script-location");
    push_mirror(&mut cmd.args, mirror);
    cmd.input = Input::BootstrapScript;
    assert(arg_views(cmd.args@) =~= bootstrap(mirror_view(mirror)).args);
    cmd
}

/// The invocation that installs or upgrades `packages` in one go.
pub fn pip_install(packages: &Vec<String>, mirror: Option<&str>) -> (cmd: Command)
    ensures
        cmd@ == install(string_views(packages@), mirror_view(mirror)),
{
    let mut cmd = new_python_command(Purpose::Install);
    push_text(&mut cmd.args, "-m");
    push_text(&mut cmd.args, "pip");
    push_text(&mut cmd.args, "install");
    push_text(&mut cmd.args, "--no-cache-dir");
    push_text(&mut cmd.args, "--no-warn-script-location");
    push_text(&mut cmd.args, "-U");
    push_mirror(&mut cmd.args, mirror);
    push_packages(&mut cmd.args, packages);
    assert(arg_views(cmd.args@) =~= install(string_views(packages@), mirror_view(mirror)).args);
    cmd
}

/// The invocation that uninstalls `packages` without asking.
pub fn pip_uninstall(packages: &Vec<String>) -> (cmd: Command)
    ensures
        cmd@ == uninstall(string_views(packages@)),
{
    let mut cmd = new_python_command(Purpose::Uninstall);
    push_text(&mut cmd.args, "-m");
    push_text(&mut cmd.args, "pip");
    push_text(&mut cmd.args, "uninstall");
    push_text(&mut cmd.args, "-y");
    push_packages(&mut cmd.args, packages);
    assert(arg_views(cmd.args@) =~= uninstall(string_views(packages@)).args);
    cmd
}

/// The invocation that lists the installed packages.
pub fn list_command() -> (cmd: Command)
    ensures
        cmd@ == list(),
{
    let mut cmd = new_python_command(Purpose::List);
    push_text(&mut cmd.args, "-m");
    push_text(&mut cmd.args, "pip");
    push_text(&mut cmd.args, "list");
    push_text(&mut cmd.args, "--format");
    push_text(&mut cmd.args, "columns");
    assert(arg_views(cmd.args@) =~= list().args);
    cmd
}

/// The invocation that byte-compiles the installed packages at the given
/// optimization level.
pub fn compile(optimize: u8) -> (cmd: Command)
    ensures
        cmd@ == compilation(optimize),
{
    let mut cmd = new_python_command(Purpose::Compile);
    push_text(&mut cmd.args, "-");
    let ghost before = cmd.args@;
    cmd.args.push(Arg::TargetDir);
    assert(arg_views(cmd.args@) =~= arg_views(before).push(ArgView::TargetDir));
    let level = string_of(render(optimize as u64).as_slice());
    push_text(&mut cmd.args, level.as_str());
    cmd.input = Input::Script(String::from_str(COMPILE_SCRIPT));
    assert(arg_views(cmd.args@) =~= compilation(optimize).args);
    cmd
}

/// An invocation succeeded if it ended with exit code 0.
pub open spec fn succeeded(code: Option<i32>) -> bool {
    code == Some(0i32)
}

/// The failure that an exit code stands for, given what the invocation was
/// run for.
pub open spec fn failure(purpose: Purpose, code: Option<i32>) -> Error {
    match purpose {
        Purpose::QueryVersion => Error::LocalVersion,
        Purpose::Bootstrap => Error::Bootstrap(code),
        Purpose::Install => Error::Install(code),
        Purpose::Compile => Error::Compile(code),
        Purpose::List => Error::List(code),
        Purpose::Uninstall => Error::Cleanup(Cleaning::Uninstall(code)),
    }
}

/// Judges a finished invocation by its exit code: 0 is success, anything
/// else the failure that belongs to the invocation's purpose.
pub fn outcome(purpose: Purpose, code: Option<i32>) -> (r: Result<(), Error>)
    ensures
        match r {
            Ok(()) => succeeded(code),
            Err(e) => !succeeded(code) && e == failure(purpose, code),
        },
{
    match code {
        Some(0) => Ok(()),
        _ => Err(
            match purpose {
                Purpose::QueryVersion => Error::LocalVersion,
                Purpose::Bootstrap => Error::Bootstrap(code),
                Purpose::Install => Error::Install(code),
                Purpose::Compile => Error::Compile(code),
                Purpose::List => Error::List(code),
                Purpose::Uninstall => Error::Cleanup(Cleaning::Uninstall(code)),
            },
        ),
    }
}

} // verus!
