//! The guest's execution service: what it answers, and in which order it
//! compiles and runs. The service works off one request in its life. Each
//! phase is done by a worker under a time limit; the functions here decide
//! what follows from the worker's report.

use vstd::prelude::*;
use vstd::string::*;
use crate::language::Language;
use crate::run::{CompilePlan, RunError, RunPlan, Runner};
use crate::span::Span;

verus! {

/// The port on which the guest serves its control channel.
pub const PORT: u32 = 5000;

/// How a worker's phase ended.
#[derive(Debug, PartialEq, Eq)]
pub enum WorkerReport<T> {
    /// The worker finished in time with this result.
    Returned(T),
    /// The time limit passed first.
    TimedOut,
    /// The worker crashed; the text says how.
    Crashed(String),
}

/// Both outputs of a program, as raw bytes: standard output, standard error.
pub type Output = (Vec<u8>, Vec<u8>);

/// How a request ended.
#[derive(Debug, Clone, Copy, PartialEq, Eq, Structural)]
pub enum OutcomeKind {
    /// The program ran; the outputs are its own.
    Success,
    /// The source did not build; the outputs are the compiler's.
    CompileError,
    /// A phase ran out of time.
    Timeout,
    /// The service itself failed.
    Fault,
}

/// The answer to a request, the kind of its outcome, and whether the phase's
/// child process must be killed before the answer is sent.
#[derive(Debug, PartialEq, Eq)]
pub struct Reply {
    pub result: Result<Output, RunError>,
    pub kind: OutcomeKind,
    pub kill_child: bool,
}

/// The answer for a fault of the service.
pub open spec fn fault(error: RunError) -> Reply {
    Reply { result: Err(error), kind: OutcomeKind::Fault, kill_child: false }
}

/// The answer for a phase that ran out of time; its child is killed.
pub open spec fn timed_out(error: RunError) -> Reply {
    Reply { result: Err(error), kind: OutcomeKind::Timeout, kill_child: true }
}

/// A request whose compile phase is under way.
#[derive(Debug, PartialEq, Eq)]
pub struct Compiling {
    pub runner: Runner,
    pub input: String,
    pub compile_timeout: Span,
    pub run_timeout: Span,
}

/// A request whose run phase is under way.
#[derive(Debug, PartialEq, Eq)]
pub struct Running {
    pub run_timeout: Span,
}

/// The first step of a request: the state to keep, the compile phase to
/// perform and the time it may take.
#[derive(Debug, PartialEq, Eq)]
pub struct Accepted {
    pub state: Compiling,
    pub plan: CompilePlan,
    pub limit: Span,
}

/// What follows the compile phase.
#[derive(Debug, PartialEq, Eq)]
pub enum AfterCompile {
    /// The run phase, under the given time limit.
    Run { state: Running, plan: RunPlan, limit: Span },
    /// The request is over.
    Done(Reply),
}

/// The answer that ends a request after its compile phase; `None` where the
/// source is ready and the run phase follows.
pub open spec fn compile_reply(
    compile_timeout: Span,
    report: WorkerReport<Result<(), RunError>>,
) -> Option<Reply> {
    match report {
        WorkerReport::TimedOut => Some(timed_out(RunError::CompileTimeout(compile_timeout))),
        WorkerReport::Crashed(detail) => Some(fault(RunError::ThreadPanicked(detail))),
        WorkerReport::Returned(Err(RunError::CompileError(out, err))) => Some(
            Reply { result: Ok((out, err)), kind: OutcomeKind::CompileError, kill_child: false },
        ),
        WorkerReport::Returned(Err(other)) => Some(fault(other)),
        WorkerReport::Returned(Ok(_)) => None,
    }
}

/// The answer that ends a request after its run phase.
pub open spec fn run_reply(run_timeout: Span, report: WorkerReport<Result<Output, RunError>>) -> Reply {
    match report {
        WorkerReport::TimedOut => timed_out(RunError::RunTimeout(run_timeout)),
        WorkerReport::Crashed(detail) => fault(RunError::ThreadPanicked(detail)),
        WorkerReport::Returned(Err(error)) => fault(error),
        WorkerReport::Returned(Ok(output)) => Reply {
            result: Ok(output),
            kind: OutcomeKind::Success,
            kill_child: false,
        },
    }
}

/// The run phase follows a compile phase only where the compile returned
/// success in time. Source that does not build is answered with exactly what
/// the compiler printed, as an ordinary result.
pub proof fn lemma_only_a_clean_build_runs(
    compile_timeout: Span,
    report: WorkerReport<Result<(), RunError>>,
)
    ensures
        compile_reply(compile_timeout, report) is None <==> (report matches WorkerReport::Returned(
            Ok(_),
        )),
        report matches WorkerReport::Returned(Err(RunError::CompileError(out, err)))
            ==> compile_reply(compile_timeout, report) == Some(
            Reply { result: Ok((out, err)), kind: OutcomeKind::CompileError, kill_child: false },
        ),
{
}

/// A phase that runs out of time is answered with its own limit, and its
/// child is killed; nothing else makes the service kill a child.
pub proof fn lemma_timeouts_kill(
    compile_timeout: Span,
    run_timeout: Span,
    compile_report: WorkerReport<Result<(), RunError>>,
    run_report: WorkerReport<Result<Output, RunError>>,
)
    ensures
        compile_report is TimedOut ==> compile_reply(compile_timeout, compile_report) == Some(
            timed_out(RunError::CompileTimeout(compile_timeout)),
        ),
        run_report is TimedOut ==> run_reply(run_timeout, run_report) == timed_out(
            RunError::RunTimeout(run_timeout),
        ),
        compile_reply(compile_timeout, compile_report) matches Some(reply) ==> (reply.kill_child
            <==> compile_report is TimedOut),
        run_reply(run_timeout, run_report).kill_child <==> run_report is TimedOut,
{
}

/// The service that the guest offers on its control channel.
#[derive(Debug, Clone, Copy, PartialEq, Eq)]
pub struct PyrodServer;

impl PyrodServer {
    /// The answer to a liveness probe.
    pub fn ping(&self) -> (r: String)
        ensures
            r@ == "Pong!"@,
    {
        String::from_str("Pong!")
    }

    /// Takes a request: picks the language's strategy and orders its compile
    /// phase, to be done by a worker within `timeouts.0`. The run phase
    /// may take `timeouts.1`.
    pub fn run_code(
        &self,
        lang: Language,
        code: String,
        input: String,
        timeouts: (Span, Span),
    ) -> (r: Accepted)
        ensures
            r.state.runner.language() == lang,
            r.state.input == input,
            r.state.compile_timeout == timeouts.0,
            r.state.run_timeout == timeouts.1,
            r.plan@ == r.state.runner.compile_spec(code@),
            r.limit == timeouts.0,
    {
        let runner = lang.get_runner();
        let plan = runner.compile(code);
        Accepted {
            state: Compiling { runner, input, compile_timeout: timeouts.0, run_timeout: timeouts.1 },
            plan,
            limit: timeouts.0,
        }
    }
}

impl Compiling {
    /// Decides what follows the compile phase. Only a compile that returned
    /// success in time leads to the run phase. Source that does not build is
    /// answered as an ordinary result that carries the compiler's outputs. A
    /// compile that ran out of time is killed and answered with the limit.
    /// Every other fault is handed on.
    pub fn compiled(self, report: WorkerReport<Result<(), RunError>>) -> (r: AfterCompile)
        ensures
            r is Run <==> (report matches WorkerReport::Returned(Ok(_))),
            r matches AfterCompile::Done(reply) ==> Some(reply) == compile_reply(
                self.compile_timeout,
                report,
            ),
            r matches AfterCompile::Run { state, plan, limit } ==> {
                &&& state.run_timeout == self.run_timeout
                &&& limit == self.run_timeout
                &&& plan@ == self.runner.run_spec(self.input@)
            },
    {
        match report {
            WorkerReport::TimedOut => AfterCompile::Done(
                Reply {
                    result: Err(RunError::CompileTimeout(self.compile_timeout)),
                    kind: OutcomeKind::Timeout,
                    kill_child: true,
                },
            ),
            WorkerReport::Crashed(detail) => AfterCompile::Done(
                Reply {
                    result: Err(RunError::ThreadPanicked(detail)),
                    kind: OutcomeKind::Fault,
                    kill_child: false,
                },
            ),
            WorkerReport::Returned(Err(RunError::CompileError(out, err))) => AfterCompile::Done(
                Reply { result: Ok((out, err)), kind: OutcomeKind::CompileError, kill_child: false },
            ),
            WorkerReport::Returned(Err(other)) => AfterCompile::Done(
                Reply { result: Err(other), kind: OutcomeKind::Fault, kill_child: false },
            ),
            WorkerReport::Returned(Ok(_)) => {
                let plan = self.runner.run(self.input);
                AfterCompile::Run {
                    state: Running { run_timeout: self.run_timeout },
                    plan,
                    limit: self.run_timeout,
                }
            },
        }
    }
}

impl Running {
    /// Decides the answer after the run phase. A program that ran out of time
    /// is killed and answered with the limit; otherwise the worker's result
    /// is the answer, with both outputs untouched.
    pub fn finished(self, report: WorkerReport<Result<Output, RunError>>) -> (r: Reply)
        ensures
            r == run_reply(self.run_timeout, report),
    {
        match report {
            WorkerReport::TimedOut => Reply {
                result: Err(RunError::RunTimeout(self.run_timeout)),
                kind: OutcomeKind::Timeout,
                kill_child: true,
            },
            WorkerReport::Crashed(detail) => Reply {
                result: Err(RunError::ThreadPanicked(detail)),
                kind: OutcomeKind::Fault,
                kill_child: false,
            },
            WorkerReport::Returned(Err(error)) => Reply {
                result: Err(error),
                kind: OutcomeKind::Fault,
                kill_child: false,
            },
            WorkerReport::Returned(Ok(output)) => Reply {
                result: Ok(output),
                kind: OutcomeKind::Success,
                kill_child: false,
            },
        }
    }
}

} // verus!
