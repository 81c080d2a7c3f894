//! What the guest does for each language: where the source goes, how it is
//! built and how it is started. Nothing here starts a process: each method
//! describes the work, and the program around the library performs it.

use vstd::prelude::*;
use vstd::string::*;
use crate::language::Language;
use crate::span::Span;
use crate::text::{owned, push_text};

verus! {

/// The user id that submitted code runs under.
pub const SANDBOX_UID: u32 = 111;

/// The group id that submitted code runs under.
pub const SANDBOX_GID: u32 = 111;

/// One process to start in the guest.
#[derive(Debug, Clone, PartialEq, Eq)]
pub struct Invocation {
    pub program: String,
    pub args: Vec<String>,
    /// The directory to start in; `None` keeps the service's own.
    pub cwd: Option<String>,
    /// Variables added to the child's environment.
    pub env: Vec<(String, String)>,
    pub uid: u32,
    pub gid: u32,
    /// Whether the child gets a pipe to read from. Its two outputs are
    /// always captured.
    pub pipe_stdin: bool,
}

/// The mathematical content of an [`Invocation`].
pub struct InvocationView {
    pub program: Seq<char>,
    pub args: Seq<Seq<char>>,
    pub cwd: Option<Seq<char>>,
    pub env: Seq<(Seq<char>, Seq<char>)>,
    pub uid: u32,
    pub gid: u32,
    pub pipe_stdin: bool,
}

impl View for Invocation {
    type V = InvocationView;

    open spec fn view(&self) -> InvocationView {
        InvocationView {
            program: self.program@,
            args: self.args.deep_view(),
            cwd: self.cwd.deep_view(),
            env: self.env.deep_view(),
            uid: self.uid,
            gid: self.gid,
            pipe_stdin: self.pipe_stdin,
        }
    }
}

/// A process under the sandbox identity.
pub open spec fn sandboxed(
    program: Seq<char>,
    args: Seq<Seq<char>>,
    cwd: Option<Seq<char>>,
    env: Seq<(Seq<char>, Seq<char>)>,
    pipe_stdin: bool,
) -> InvocationView {
    InvocationView { program, args, cwd, env, uid: 111, gid: 111, pipe_stdin }
}

/// The work of the compile phase: store the source, then build it if the
/// language is compiled.
#[derive(Debug, Clone, PartialEq, Eq)]
pub struct CompilePlan {
    /// A directory to create first, with its parents, if it is missing.
    pub scratch_dir: Option<String>,
    /// The fixed file that receives the source.
    pub source_path: String,
    pub source: String,
    /// Variables to set in the service's own environment before building.
    pub exports: Vec<(String, String)>,
    /// The compiler to run; `None` for an interpreted language.
    pub compiler: Option<Invocation>,
}

/// The mathematical content of a [`CompilePlan`].
pub struct CompilePlanView {
    pub scratch_dir: Option<Seq<char>>,
    pub source_path: Seq<char>,
    pub source: Seq<char>,
    pub exports: Seq<(Seq<char>, Seq<char>)>,
    pub compiler: Option<InvocationView>,
}

impl View for CompilePlan {
    type V = CompilePlanView;

    open spec fn view(&self) -> CompilePlanView {
        CompilePlanView {
            scratch_dir: self.scratch_dir.deep_view(),
            source_path: self.source_path@,
            source: self.source@,
            exports: self.exports.deep_view(),
            compiler: match self.compiler {
                Some(c) => Some(c@),
                None => None,
            },
        }
    }
}

/// The work of the run phase: start the program, write all of `stdin` to it,
/// then wait for it and collect both outputs.
#[derive(Debug, Clone, PartialEq, Eq)]
pub struct RunPlan {
    pub command: Invocation,
    pub stdin: String,
}

/// The mathematical content of a [`RunPlan`].
pub struct RunPlanView {
    pub command: InvocationView,
    pub stdin: Seq<char>,
}

impl View for RunPlan {
    type V = RunPlanView;

    open spec fn view(&self) -> RunPlanView {
        RunPlanView { command: self.command@, stdin: self.stdin@ }
    }
}

/// Why a request could not be served.
#[derive(Debug, Clone, PartialEq, Eq)]
pub enum RunError {
    /// A worker crashed; the text says how.
    ThreadPanicked(String),
    /// An operation on a file or a process failed; the text says how.
    IOError(String),
    /// An interpreter, a compiler or the built program is missing.
    FileNotFound,
    /// An output was asked for as text and is not valid UTF-8.
    OutputUtf8Error,
    /// The submitted code does not build; the compiler's two outputs.
    CompileError(Vec<u8>, Vec<u8>),
    /// The program ran longer than the given limit.
    RunTimeout(Span),
    /// The build took longer than the given limit.
    CompileTimeout(Span),
}

impl RunError {
    /// The error for a failed operation of the system: a missing file has a
    /// variant of its own, anything else carries its description.
    pub fn from_io(not_found: bool, detail: String) -> (r: RunError)
        ensures
            not_found ==> r == RunError::FileNotFound,
            !not_found ==> r == RunError::IOError(detail),
    {
        if not_found {
            RunError::FileNotFound
        } else {
            RunError::IOError(detail)
        }
    }

    /// The error for a worker that crashed.
    pub fn from_worker(detail: String) -> (r: RunError)
        ensures
            r == RunError::ThreadPanicked(detail),
    {
        RunError::ThreadPanicked(detail)
    }
}

/// Judges a finished compiler: a zero exit status is success, anything else
/// means the submitted code does not build and hands back what the compiler
/// printed.
pub fn judge_compile(success: bool, stdout: Vec<u8>, stderr: Vec<u8>) -> (r: Result<(), RunError>)
    ensures
        success ==> r == Ok::<(), RunError>(()),
        !success ==> r == Err::<(), RunError>(RunError::CompileError(stdout, stderr)),
{
    if success {
        Ok(())
    } else {
        Err(RunError::CompileError(stdout, stderr))
    }
}

/// A plan that only stores the source.
fn store_only(path: &str, code: String) -> (r: CompilePlan)
    ensures
        r@ == interpreted_compile(path@, code@),
{
    let r = CompilePlan {
        scratch_dir: None,
        source_path: owned(path),
        source: code,
        exports: Vec::new(),
        compiler: None,
    };
    assert(r.exports.deep_view() =~= Seq::empty());
    r
}

/// A sandboxed interpreter started on one file.
fn interpreter(program: &str, script: &str, stdin: String) -> (r: RunPlan)
    ensures
        r@ == interpreted_run(program@, script@, stdin@),
{
    let mut args: Vec<String> = Vec::new();
    push_text(&mut args, script);
    let command = Invocation {
        program: owned(program),
        args,
        cwd: None,
        env: Vec::new(),
        uid: SANDBOX_UID,
        gid: SANDBOX_GID,
        pipe_stdin: true,
    };
    assert(command.env.deep_view() =~= Seq::empty());
    assert(command.args.deep_view() =~= seq![script@]);
    RunPlan { command, stdin }
}

/// The compile phase of an interpreted language.
pub open spec fn interpreted_compile(path: Seq<char>, code: Seq<char>) -> CompilePlanView {
    CompilePlanView {
        scratch_dir: None,
        source_path: path,
        source: code,
        exports: Seq::empty(),
        compiler: None,
    }
}

/// The run phase of an interpreted language.
pub open spec fn interpreted_run(
    program: Seq<char>,
    script: Seq<char>,
    stdin: Seq<char>,
) -> RunPlanView {
    RunPlanView {
        command: sandboxed(program, seq![script], None, Seq::empty(), true),
        stdin,
    }
}

/// Runs Python sources.
#[derive(Debug, Clone, Copy, PartialEq, Eq)]
pub struct PythonRunner;

impl PythonRunner {
    /// The compile phase for `code`.
    pub open spec fn compile_spec(code: Seq<char>) -> CompilePlanView {
        interpreted_compile("/tmp/code.py"@, code)
    }

    /// The run phase, fed with `stdin`.
    pub open spec fn run_spec(stdin: Seq<char>) -> RunPlanView {
        interpreted_run("/usr/local/bin/python"@, "/tmp/code.py"@, stdin)
    }

    /// Python needs no build: the source is stored at its fixed path.
    pub fn compile(&self, code: String) -> (r: CompilePlan)
        ensures
            r@ == Self::compile_spec(code@),
    {
        store_only("/tmp/code.py", code)
    }

    /// The interpreter is started on the stored source.
    pub fn run(&self, stdin: String) -> (r: RunPlan)
        ensures
            r@ == Self::run_spec(stdin@),
    {
        interpreter("/usr/local/bin/python", "/tmp/code.py", stdin)
    }
}

/// Runs scripts for the plain shell.
#[derive(Debug, Clone, Copy, PartialEq, Eq)]
pub struct ShRunner;

impl ShRunner {
    /// The compile phase for `code`.
    pub open spec fn compile_spec(code: Seq<char>) -> CompilePlanView {
        interpreted_compile("/tmp/code.sh"@, code)
    }

    /// The run phase, fed with `stdin`.
    pub open spec fn run_spec(stdin: Seq<char>) -> RunPlanView {
        interpreted_run("/bin/sh"@, "/tmp/code.sh"@, stdin)
    }

    /// A script needs no build: the source is stored at its fixed path.
    pub fn compile(&self, code: String) -> (r: CompilePlan)
        ensures
            r@ == Self::compile_spec(code@),
    {
        store_only("/tmp/code.sh", code)
    }

    /// The shell is started on the stored script.
    pub fn run(&self, stdin: String) -> (r: RunPlan)
        ensures
            r@ == Self::run_spec(stdin@),
    {
        interpreter("/bin/sh", "/tmp/code.sh", stdin)
    }
}

/// Runs scripts for Bash.
#[derive(Debug, Clone, Copy, PartialEq, Eq)]
pub struct BashRunner;

impl BashRunner {
    /// The compile phase for `code`.
    pub open spec fn compile_spec(code: Seq<char>) -> CompilePlanView {
        interpreted_compile("/tmp/code.sh"@, code)
    }

    /// The run phase, fed with `stdin`.
    pub open spec fn run_spec(stdin: Seq<char>) -> RunPlanView {
        interpreted_run("/bin/bash"@, "/tmp/code.sh"@, stdin)
    }

    /// A script needs no build: the source is stored at its fixed path.
    pub fn compile(&self, code: String) -> (r: CompilePlan)
        ensures
            r@ == Self::compile_spec(code@),
    {
        store_only("/tmp/code.sh", code)
    }

    /// Bash is started on the stored script.
    pub fn run(&self, stdin: String) -> (r: RunPlan)
        ensures
            r@ == Self::run_spec(stdin@),
    {
        interpreter("/bin/bash", "/tmp/code.sh", stdin)
    }
}

/// Builds and runs Java sources.
#[derive(Debug, Clone, Copy, PartialEq, Eq)]
pub struct JavaRunner;

impl JavaRunner {
    /// The compile phase for `code`.
    pub open spec fn compile_spec(code: Seq<char>) -> CompilePlanView {
        CompilePlanView {
            scratch_dir: Some("/tmp"@),
            source_path: "/tmp/Main.java"@,
            source: code,
            exports: Seq::empty(),
            compiler: Some(
                sandboxed(
                    "/usr/bin/javac"@,
                    seq!["Main.java"@],
                    Some("/tmp"@),
                    Seq::empty(),
                    false,
                ),
            ),
        }
    }

    /// The run phase, fed with `stdin`.
    pub open spec fn run_spec(stdin: Seq<char>) -> RunPlanView {
        RunPlanView {
            command: sandboxed("/usr/bin/java"@, seq!["Main"@], Some("/tmp"@), Seq::empty(), true),
            stdin,
        }
    }

    /// The source is stored as the fixed class file's source and compiled in
    /// its directory.
    pub fn compile(&self, code: String) -> (r: CompilePlan)
        ensures
            r@ == Self::compile_spec(code@),
    {
        let mut args: Vec<String> = Vec::new();
        push_text(&mut args, "Main.java");
        let compiler = Invocation {
            program: owned("/usr/bin/javac"),
            args,
            cwd: Some(owned("/tmp")),
            env: Vec::new(),
            uid: SANDBOX_UID,
            gid: SANDBOX_GID,
            pipe_stdin: false,
        };
        assert(compiler.env.deep_view() =~= Seq::empty());
        assert(compiler.args.deep_view() =~= seq!["Main.java"@]);
        let r = CompilePlan {
            scratch_dir: Some(owned("/tmp")),
            source_path: owned("/tmp/Main.java"),
            source: code,
            exports: Vec::new(),
            compiler: Some(compiler),
        };
        assert(r.exports.deep_view() =~= Seq::empty());
        r
    }

    /// The runtime is started on the fixed entry class.
    pub fn run(&self, stdin: String) -> (r: RunPlan)
        ensures
            r@ == Self::run_spec(stdin@),
    {
        let mut args: Vec<String> = Vec::new();
        push_text(&mut args, "Main");
        let command = Invocation {
            program: owned("/usr/bin/java"),
            args,
            cwd: Some(owned("/tmp")),
            env: Vec::new(),
            uid: SANDBOX_UID,
            gid: SANDBOX_GID,
            pipe_stdin: true,
        };
        assert(command.env.deep_view() =~= Seq::empty());
        assert(command.args.deep_view() =~= seq!["Main"@]);
        RunPlan { command, stdin }
    }
}

/// Builds and runs Rust sources, in the project that the guest image holds.
#[derive(Debug, Clone, Copy, PartialEq, Eq)]
pub struct RustRunner;

impl RustRunner {
    /// What the service exports before it calls the build tool.
    pub open spec fn exports_spec() -> Seq<(Seq<char>, Seq<char>)> {
        seq![
            ("RUSTUP_HOME"@, "/usr/local/rustup"@),
            ("CARGO_HOME"@, "/usr/local/cargo"@),
            (
                "PATH"@,
                "/usr/local/cargo/bin:/usr/local/sbin:/usr/local/bin:/usr/sbin:/usr/bin:/sbin:/bin"@,
            ),
        ]
    }

    /// The compile phase for `code`.
    pub open spec fn compile_spec(code: Seq<char>) -> CompilePlanView {
        CompilePlanView {
            scratch_dir: None,
            source_path: "/cargo_project/src/main.rs"@,
            source: code,
            exports: Self::exports_spec(),
            compiler: Some(
                sandboxed(
                    "/usr/local/cargo/bin/cargo"@,
                    seq!["build"@, "--release"@, "--offline"@, "--quiet"@],
                    Some("/cargo_project"@),
                    seq![
                        (
                            "RUSTFLAGS"@,
                            "--sysroot=/usr/local/rustup/toolchains/1.70.0-x86_64-unknown-linux-musl"@,
                        ),
                    ],
                    false,
                ),
            ),
        }
    }

    /// The run phase, fed with `stdin`.
    pub open spec fn run_spec(stdin: Seq<char>) -> RunPlanView {
        RunPlanView {
            command: sandboxed(
                "/cargo_project/target/release/cargo_project"@,
                Seq::empty(),
                None,
                Seq::empty(),
                true,
            ),
            stdin,
        }
    }

    /// The source becomes the entry file of the prepared project, which is
    /// then built for release without touching the network.
    pub fn compile(&self, code: String) -> (r: CompilePlan)
        ensures
            r@ == Self::compile_spec(code@),
    {
        let mut exports: Vec<(String, String)> = Vec::new();
        exports.push((owned("RUSTUP_HOME"), owned("/usr/local/rustup")));
        exports.push((owned("CARGO_HOME"), owned("/usr/local/cargo")));
        exports.push(
            (
                owned("PATH"),
                owned(
                    "/usr/local/cargo/bin:/usr/local/sbin:/usr/local/bin:/usr/sbin:/usr/bin:/sbin:/bin",
                ),
            ),
        );
        assert(exports.deep_view() =~= Self::exports_spec());
        let mut args: Vec<String> = Vec::new();
        push_text(&mut args, "build");
        push_text(&mut args, "--release");
        push_text(&mut args, "--offline");
        push_text(&mut args, "--quiet");
        let mut env: Vec<(String, String)> = Vec::new();
        env.push(
            (
                owned("RUSTFLAGS"),
                owned("--sysroot=/usr/local/rustup/toolchains/1.70.0-x86_64-unknown-linux-musl"),
            ),
        );
        let compiler = Invocation {
            program: owned("/usr/local/cargo/bin/cargo"),
            args,
            cwd: Some(owned("/cargo_project")),
            env,
            uid: SANDBOX_UID,
            gid: SANDBOX_GID,
            pipe_stdin: false,
        };
        assert(compiler.args.deep_view() =~= seq![
            "build"@,
            "--release"@,
            "--offline"@,
            "--quiet"@,
        ]);
        assert(compiler.env.deep_view() =~= seq![
            (
                "RUSTFLAGS"@,
                "--sysroot=/usr/local/rustup/toolchains/1.70.0-x86_64-unknown-linux-musl"@,
            ),
        ]);
        CompilePlan {
            scratch_dir: None,
            source_path: owned("/cargo_project/src/main.rs"),
            source: code,
            exports,
            compiler: Some(compiler),
        }
    }

    /// The release binary of the project is started.
    pub fn run(&self, stdin: String) -> (r: RunPlan)
        ensures
            r@ == Self::run_spec(stdin@),
    {
        let command = Invocation {
            program: owned("/cargo_project/target/release/cargo_project"),
            args: Vec::new(),
            cwd: None,
            env: Vec::new(),
            uid: SANDBOX_UID,
            gid: SANDBOX_GID,
            pipe_stdin: true,
        };
        assert(command.env.deep_view() =~= Seq::empty());
        assert(command.args.deep_view() =~= Seq::empty());
        RunPlan { command, stdin }
    }
}

/// The strategy for one language.
#[derive(Debug, Clone, Copy, PartialEq, Eq)]
pub enum Runner {
    Python(PythonRunner),
    Rust(RustRunner),
    Java(JavaRunner),
    Bash(BashRunner),
    Sh(ShRunner),
}

impl Runner {
    /// The language that the strategy serves.
    pub open spec fn language(self) -> Language {
        match self {
            Runner::Python(_) => Language::Python,
            Runner::Rust(_) => Language::Rust,
            Runner::Java(_) => Language::Java,
            Runner::Bash(_) => Language::Bash,
            Runner::Sh(_) => Language::Sh,
        }
    }

    /// Whether the language has a build step that can reject the source.
    pub open spec fn is_compiled(self) -> bool {
        self is Rust || self is Java
    }

    /// The compile phase for `code`.
    pub open spec fn compile_spec(self, code: Seq<char>) -> CompilePlanView {
        match self {
            Runner::Python(_) => PythonRunner::compile_spec(code),
            Runner::Rust(_) => RustRunner::compile_spec(code),
            Runner::Java(_) => JavaRunner::compile_spec(code),
            Runner::Bash(_) => BashRunner::compile_spec(code),
            Runner::Sh(_) => ShRunner::compile_spec(code),
        }
    }

    /// The run phase, fed with `stdin`.
    pub open spec fn run_spec(self, stdin: Seq<char>) -> RunPlanView {
        match self {
            Runner::Python(_) => PythonRunner::run_spec(stdin),
            Runner::Rust(_) => RustRunner::run_spec(stdin),
            Runner::Java(_) => JavaRunner::run_spec(stdin),
            Runner::Bash(_) => BashRunner::run_spec(stdin),
            Runner::Sh(_) => ShRunner::run_spec(stdin),
        }
    }

    /// The compile phase for `code`.
    pub fn compile(&self, code: String) -> (r: CompilePlan)
        ensures
            r@ == self.compile_spec(code@),
            r@.compiler is Some <==> self.is_compiled(),
    {
        match self {
            Runner::Python(p) => p.compile(code),
            Runner::Rust(p) => p.compile(code),
            Runner::Java(p) => p.compile(code),
            Runner::Bash(p) => p.compile(code),
            Runner::Sh(p) => p.compile(code),
        }
    }

    /// The run phase, fed with `stdin`.
    pub fn run(&self, stdin: String) -> (r: RunPlan)
        ensures
            r@ == self.run_spec(stdin@),
            r@.command.uid == SANDBOX_UID,
            r@.command.gid == SANDBOX_GID,
            r@.command.pipe_stdin,
    {
        match self {
            Runner::Python(p) => p.run(stdin),
            Runner::Rust(p) => p.run(stdin),
            Runner::Java(p) => p.run(stdin),
            Runner::Bash(p) => p.run(stdin),
            Runner::Sh(p) => p.run(stdin),
        }
    }
}

/// The work depends on nothing but the request: two strategies for one
/// language plan the same compile phase for the same source and the same run
/// phase for the same input.
pub proof fn lemma_same_request_same_work(a: Runner, b: Runner, code: Seq<char>, stdin: Seq<char>)
    requires
        a.language() == b.language(),
    ensures
        a.compile_spec(code) == b.compile_spec(code),
        a.run_spec(stdin) == b.run_spec(stdin),
{
}

impl Language {
    /// The strategy that serves the language.
    pub fn get_runner(self) -> (r: Runner)
        ensures
            r.language() == self,
    {
        match self {
            Language::Python => Runner::Python(PythonRunner),
            Language::Rust => Runner::Rust(RustRunner),
            Language::Java => Runner::Java(JavaRunner),
            Language::Bash => Runner::Bash(BashRunner),
            Language::Sh => Runner::Sh(ShRunner),
        }
    }
}

/// What the guest's first process does before it serves requests: create the
/// scratch directory, then mount the process filesystem so that nothing in it
/// can be executed, run set-uid or used as a device.
#[derive(Debug, Clone, PartialEq, Eq)]
pub struct BootstrapPlan {
    pub scratch_dir: String,
    pub mount: Invocation,
}

/// The bootstrap of every guest.
pub open spec fn init_spec() -> BootstrapPlanView {
    BootstrapPlanView {
        scratch_dir: "/tmp"@,
        mount: InvocationView {
            program: "/bin/mount"@,
            args: seq!["-t"@, "proc"@, "-o"@, "nosuid,noexec,nodev"@, "proc"@, "/proc"@],
            cwd: None,
            env: Seq::empty(),
            uid: 0,
            gid: 0,
            pipe_stdin: false,
        },
    }
}

/// The mathematical content of a [`BootstrapPlan`].
pub struct BootstrapPlanView {
    pub scratch_dir: Seq<char>,
    pub mount: InvocationView,
}

impl View for BootstrapPlan {
    type V = BootstrapPlanView;

    open spec fn view(&self) -> BootstrapPlanView {
        BootstrapPlanView { scratch_dir: self.scratch_dir@, mount: self.mount@ }
    }
}

/// The guest's bootstrap, in the order in which it must happen. A failure of
/// either step must stop the machine.
pub fn init() -> (r: BootstrapPlan)
    ensures
        r@ == init_spec(),
{
    let mut args: Vec<String> = Vec::new();
    push_text(&mut args, "-t");
    push_text(&mut args, "proc");
    push_text(&mut args, "-o");
    push_text(&mut args, "nosuid,noexec,nodev");
    push_text(&mut args, "proc");
    push_text(&mut args, "/proc");
    let mount = Invocation {
        program: owned("/bin/mount"),
        args,
        cwd: None,
        env: Vec::new(),
        uid: 0,
        gid: 0,
        pipe_stdin: false,
    };
    assert(mount.env.deep_view() =~= Seq::empty());
    assert(mount.args.deep_view() =~= seq![
        "-t"@,
        "proc"@,
        "-o"@,
        "nosuid,noexec,nodev"@,
        "proc"@,
        "/proc"@,
    ]);
    BootstrapPlan { scratch_dir: owned("/tmp"), mount }
}

} // verus!
