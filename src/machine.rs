use vstd::prelude::*;
use crate::base::{first_or_nil, print_finish, print_text, Invocation};
use crate::error::Error;
use crate::sequence::{Continuation, Outcome, Start};
use crate::value::{Builtin, Function, TypeName, Value};

verus! {

/// How a script function's run ended, as the evaluator reports it.
#[derive(Debug)]
pub enum ScriptOutcome {
    /// It returned these results.
    Return(Vec<Value>),
    /// It failed with this error.
    Raise(Error),
    /// It ended by calling this function with these arguments, whose outcome is
    /// its own.
    TailCall(Function, Vec<Value>),
    /// It asked to suspend, handing these values to whoever resumes it.
    Yield(Vec<Value>),
}

/// Where a run stands.
#[derive(Debug)]
pub enum Phase {
    /// A function is to be called.
    Call(Function, Vec<Value>),
    /// An outcome is to be handed to the innermost waiting continuation.
    Resolve(Outcome),
    /// A suspension is to be handed to the host.
    Suspend(Vec<Value>),
    /// Waiting for the host to write output.
    AwaitOutput,
    /// Waiting for the evaluator to run a script function.
    AwaitScript,
    /// The run has ended.
    Done,
}

/// What the host is to do after a step.
#[derive(Debug)]
pub enum Action {
    /// Write these bytes, flush, and report how it went with `output_done`.
    Write(Vec<u8>),
    /// Run this script function on these arguments and report with `script_done`.
    RunScript(u64, Vec<Value>),
    /// Suspend the run with these values; report the script's next outcome
    /// with `script_done` when it is resumed.
    Yield(Vec<Value>),
    /// Nothing to do: step again.
    Step,
    /// The run ended with this outcome.
    Finish(Outcome),
    /// The run is waiting for the host, or has ended: there is nothing to step.
    Blocked,
}

/// A single-threaded stepper that drives a call through host functions,
/// sequences and script functions. Continuations that wait on an outcome are
/// kept on a stack; the innermost is last.
#[derive(Debug)]
pub struct Machine {
    pub phase: Phase,
    pub frames: Vec<Continuation>,
}

/// `attempt to yield across a protected call`
pub open spec fn yield_across_text() -> Seq<u8> {
    seq![97u8, 116, 116, 101, 109, 112, 116, 32, 116, 111, 32, 121, 105, 101, 108, 100, 32, 97, 99, 114, 111, 115, 115, 32, 97, 32, 112, 114, 111, 116, 101, 99, 116, 101, 100, 32, 99, 97, 108, 108]
}

/// Pushes `cs` so that its first continuation ends up innermost.
fn push_continuations(frames: &mut Vec<Continuation>, cs: Vec<Continuation>)
    ensures
        final(frames)@ == old(frames)@ + cs@.reverse(),
{
    let mut cs = cs;
    let ghost all = cs@;
    while cs.len() > 0
        invariant
            all.len() >= cs@.len(),
            cs@ == all.take(cs@.len() as int),
            frames@ == old(frames)@ + all.skip(cs@.len() as int).reverse(),
        decreases cs@.len(),
    {
        let ghost k = cs@.len() as int;
        let c = cs.pop().unwrap();
        frames.push(c);
        assert(all.skip(k - 1).reverse() =~= all.skip(k).reverse().push(all[k - 1]));
        assert(cs@ =~= all.take(k - 1));
    }
    assert(all.skip(0) == all);
}

impl Machine {
    /// A run that calls `function` with `args`.
    pub fn start(function: Function, args: Vec<Value>) -> (m: Machine)
        ensures
            m.phase == Phase::Call(function, args),
            m.frames@.len() == 0,
    {
        Machine { phase: Phase::Call(function, args), frames: Vec::new() }
    }

    /// Whether a protected call is waiting on the current call.
    pub open spec fn protected(&self) -> bool {
        exists|i: int| 0 <= i < self.frames@.len() && self.frames@[i] == Continuation::Protect
    }

    /// Whether `n` and `a` are what one step from this state gives.
    pub open spec fn steps(self, n: Machine, a: Action) -> bool {
        match self.phase {
            Phase::Call(Function::Builtin(Builtin::Print), args) => n.frames@ == self.frames@
                && n.phase == Phase::AwaitOutput && a is Write && a->Write_0@ == print_text(args@),
            Phase::Call(Function::Builtin(Builtin::Error), args) => n.frames@ == self.frames@
                && n.phase == Phase::Resolve(Err(Error::RuntimeError(first_or_nil(args@))))
                && a == Action::Step,
            Phase::Call(Function::Builtin(Builtin::PCall), args) => a == Action::Step && match first_or_nil(args@) {
                Value::Function(f) => n.frames@ == self.frames@.push(Continuation::Protect) && match n.phase {
                    Phase::Call(g, rest) => g == f && rest@ == args@.drop_first(),
                    _ => false,
                },
                other => n.frames@ == self.frames@ && n.phase == Phase::Resolve(
                    Err(Error::TypeError { expected: TypeName::Function, found: other.type_of() }),
                ),
            },
            Phase::Call(Function::Script(id), args) => n.frames@ == self.frames@ && n.phase
                == Phase::AwaitScript && a == Action::RunScript(id, args),
            Phase::Resolve(o) => if self.frames@.len() == 0 {
                n.frames@ == self.frames@ && n.phase == Phase::Done && a == Action::Finish(o)
            } else {
                n.frames@ == self.frames@.drop_last() && a == Action::Step && match n.phase {
                    Phase::Resolve(r) => self.frames@.last().resumes(o, r),
                    _ => false,
                }
            },
            Phase::Suspend(vs) => n.frames@ == self.frames@ && n.phase == Phase::AwaitScript && a
                == Action::Yield(vs),
            _ => n.phase == self.phase && n.frames@ == self.frames@ && a == Action::Blocked,
        }
    }

    /// Takes one step: calls a host function, hands a script call or output
    /// to the host, or applies the innermost continuation to an outcome.
    pub fn step(&mut self) -> (a: Action)
        ensures
            old(self).steps(*final(self), a),
    {
        let mut phase = Phase::Done;
        std::mem::swap(&mut phase, &mut self.phase);
        match phase {
            Phase::Call(Function::Builtin(b), args) => match b.invoke(args) {
                Invocation::Output(bytes) => {
                    self.phase = Phase::AwaitOutput;
                    Action::Write(bytes)
                },
                Invocation::Done(o) => {
                    self.phase = Phase::Resolve(o);
                    Action::Step
                },
                Invocation::Sequence(s) => {
                    let ghost before = self.frames@;
                    assert(seq![Continuation::Protect].reverse() =~= seq![Continuation::Protect]);
                    push_continuations(&mut self.frames, s.continuations);
                    assert(self.frames@ =~= before.push(Continuation::Protect));
                    match s.start {
                        Start::Ready(o) => {
                            self.phase = Phase::Resolve(o);
                        },
                        Start::Call(g, rest) => {
                            self.phase = Phase::Call(g, rest);
                        },
                    }
                    Action::Step
                },
            },
            Phase::Call(Function::Script(id), args) => {
                self.phase = Phase::AwaitScript;
                Action::RunScript(id, args)
            },
            Phase::Resolve(o) => {
                match self.frames.pop() {
                    None => {
                        self.phase = Phase::Done;
                        Action::Finish(o)
                    },
                    Some(c) => {
                        self.phase = Phase::Resolve(c.resume(o));
                        Action::Step
                    },
                }
            },
            Phase::Suspend(vs) => {
                self.phase = Phase::AwaitScript;
                Action::Yield(vs)
            },
            other => {
                self.phase = other;
                Action::Blocked
            },
        }
    }
    /// Whether a protected call is waiting on the current call.
    pub fn is_protected(&self) -> (r: bool)
        ensures
            r == self.protected(),
    {
        let mut i: usize = 0;
        while i < self.frames.len()
            invariant
                i <= self.frames@.len(),
                forall|j: int| 0 <= j < i ==> self.frames@[j] != Continuation::Protect,
            decreases self.frames@.len() - i,
        {
            if self.frames[i] == Continuation::Protect {
                return true;
            }
            i = i + 1;
        }
        false
    }

    /// Reports how writing the output of `print` went. Returns whether the run
    /// was waiting for it; if not, nothing changes.
    pub fn output_done(&mut self, written: Result<(), Vec<u8>>) -> (accepted: bool)
        ensures
            accepted == (old(self).phase == Phase::AwaitOutput),
            final(self).frames@ == old(self).frames@,
            !accepted ==> final(self).phase == old(self).phase,
            accepted ==> match written {
                Ok(()) => match final(self).phase {
                    Phase::Resolve(Ok(vs)) => vs@.len() == 0,
                    _ => false,
                },
                Err(message) => final(self).phase == Phase::Resolve(
                    Err(Error::IOError(message)),
                ),
            },
    {
        match self.phase {
            Phase::AwaitOutput => {
                self.phase = Phase::Resolve(print_finish(written));
                true
            },
            _ => false,
        }
    }

    /// Whether `n` is what reporting `outcome` in this state gives, when a
    /// script was awaited.
    pub open spec fn reports(self, outcome: ScriptOutcome, n: Machine) -> bool {
        n.frames@ == self.frames@ && match outcome {
            ScriptOutcome::Return(vs) => n.phase == Phase::Resolve(Ok(vs)),
            ScriptOutcome::Raise(e) => n.phase == Phase::Resolve(Err(e)),
            ScriptOutcome::TailCall(f, args) => n.phase == Phase::Call(f, args),
            ScriptOutcome::Yield(vs) => if self.protected() {
                match n.phase {
                    Phase::Resolve(Err(Error::RuntimeError(Value::String(s)))) => s@
                        == yield_across_text(),
                    _ => false,
                }
            } else {
                n.phase == Phase::Suspend(vs)
            },
        }
    }

    /// Reports how a script function's run ended. A suspension while a
    /// protected call waits is refused: it fails inside the protected call as
    /// a runtime error. Returns whether the run was waiting for a script; if
    /// not, nothing changes.
    pub fn script_done(&mut self, outcome: ScriptOutcome) -> (accepted: bool)
        ensures
            accepted == (old(self).phase == Phase::AwaitScript),
            final(self).frames@ == old(self).frames@,
            !accepted ==> final(self).phase == old(self).phase,
            accepted ==> old(self).reports(outcome, *final(self)),
    {
        match self.phase {
            Phase::AwaitScript => {},
            _ => {
                return false;
            },
        }
        match outcome {
            ScriptOutcome::Return(vs) => {
                self.phase = Phase::Resolve(Ok(vs));
            },
            ScriptOutcome::Raise(e) => {
                self.phase = Phase::Resolve(Err(e));
            },
            ScriptOutcome::TailCall(f, args) => {
                self.phase = Phase::Call(f, args);
            },
            ScriptOutcome::Yield(vs) => {
                if self.is_protected() {
                    let text: Vec<u8> = vec![97u8, 116, 116, 101, 109, 112, 116, 32, 116, 111, 32, 121, 105, 101, 108, 100, 32, 97, 99, 114, 111, 115, 115, 32, 97, 32, 112, 114, 111, 116, 101, 99, 116, 101, 100, 32, 99, 97, 108, 108];
                    self.phase = Phase::Resolve(Err(Error::RuntimeError(Value::String(text))));
                } else {
                    self.phase = Phase::Suspend(vs);
                }
            },
        }
        true
    }
}

} // verus!
