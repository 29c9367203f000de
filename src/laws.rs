use vstd::prelude::*;
use crate::base::pcall_result;
use crate::error::Error;
use crate::machine::{Action, Machine, Phase, ScriptOutcome};
use crate::sequence::{Outcome, Sequence};
use crate::value::{Builtin, Function, Value};

verus! {

/// A protected call of a function calls it with the remaining arguments, and
/// when it returns `results` the protected call returns `true` followed by
/// those results, in order and in number, none included.
pub proof fn pcall_success(args: Seq<Value>, s: Sequence, results: Vec<Value>, r: Outcome)
    requires
        pcall_result(args, Ok(s)),
        s.continuations@[0].resumes(Ok(results), r),
    ensures
        args.len() > 0,
        args[0] is Function,
        s.start is Call,
        s.start->Call_0 == args[0]->Function_0,
        s.start->Call_1@ == args.drop_first(),
        r is Ok,
        r->Ok_0@ == seq![Value::Boolean(true)] + results@,
{
}

/// When the protected function fails with `e`, the protected call returns
/// exactly `false` and the value of `e`; a value raised by script code comes
/// back unchanged.
pub proof fn pcall_failure(args: Seq<Value>, s: Sequence, e: Error, r: Outcome)
    requires
        pcall_result(args, Ok(s)),
        s.continuations@[0].resumes(Err(e), r),
    ensures
        r is Ok,
        r->Ok_0@.len() == 2,
        r->Ok_0@[0] == Value::Boolean(false),
        e.renders_as(r->Ok_0@[1]),
        e is RuntimeError ==> r->Ok_0@[1] == e->RuntimeError_0,
{
}

/// A protected call whose function returns what an inner protected call gave,
/// where the inner one caught the failure `e`, succeeds with `true`, `false`
/// and the value of `e`.
pub proof fn nested_pcall(
    outer_args: Seq<Value>,
    outer: Sequence,
    inner_args: Seq<Value>,
    inner: Sequence,
    e: Error,
    inner_result: Outcome,
    r: Outcome,
)
    requires
        pcall_result(outer_args, Ok(outer)),
        pcall_result(inner_args, Ok(inner)),
        inner.continuations@[0].resumes(Err(e), inner_result),
        outer.continuations@[0].resumes(inner_result, r),
    ensures
        r is Ok,
        r->Ok_0@.len() == 3,
        r->Ok_0@[0] == Value::Boolean(true),
        r->Ok_0@[1] == Value::Boolean(false),
        e.renders_as(r->Ok_0@[2]),
{
    pcall_failure(inner_args, inner, e, inner_result);
    let rs = inner_result->Ok_0;
    pcall_success(outer_args, outer, rs, r);
}

/// Whether `m` is about to call `pcall` with `args`, with nothing waiting on it.
pub open spec fn calls_pcall(m: Machine, args: Seq<Value>) -> bool {
    m.frames@.len() == 0 && match m.phase {
        Phase::Call(f, a) => f == Function::Builtin(Builtin::PCall) && a@ == args,
        _ => false,
    }
}

/// A run of `pcall(f, args...)`, where the script function `f` returns
/// `results`, hands `f` exactly `args` and finishes with `true` followed by
/// `results`.
pub proof fn run_pcall_success(
    f: u64,
    args: Seq<Value>,
    results: Vec<Value>,
    m0: Machine,
    m1: Machine,
    m2: Machine,
    m3: Machine,
    m4: Machine,
    m5: Machine,
    a0: Action,
    a1: Action,
    a3: Action,
    a4: Action,
)
    requires
        calls_pcall(m0, seq![Value::Function(Function::Script(f))] + args),
        m0.steps(m1, a0),
        m1.steps(m2, a1),
        m2.reports(ScriptOutcome::Return(results), m3),
        m3.steps(m4, a3),
        m4.steps(m5, a4),
    ensures
        a1 is RunScript,
        a1->RunScript_0 == f,
        a1->RunScript_1@ == args,
        a4 is Finish,
        a4->Finish_0 is Ok,
        a4->Finish_0->Ok_0@ == seq![Value::Boolean(true)] + results@,
        m5.phase == Phase::Done,
{
    let pargs = seq![Value::Function(Function::Script(f))] + args;
    assert(pargs.drop_first() == args);
    assert(m1.frames@ == seq![crate::sequence::Continuation::Protect]);
}

/// A run of `pcall(f, args...)`, where the script function `f` fails with
/// `e`, finishes with `false` and the value of `e`, which is the raised value
/// itself when `e` was raised by script code.
pub proof fn run_pcall_failure(
    f: u64,
    args: Seq<Value>,
    e: Error,
    m0: Machine,
    m1: Machine,
    m2: Machine,
    m3: Machine,
    m4: Machine,
    m5: Machine,
    a0: Action,
    a1: Action,
    a3: Action,
    a4: Action,
)
    requires
        calls_pcall(m0, seq![Value::Function(Function::Script(f))] + args),
        m0.steps(m1, a0),
        m1.steps(m2, a1),
        m2.reports(ScriptOutcome::Raise(e), m3),
        m3.steps(m4, a3),
        m4.steps(m5, a4),
    ensures
        a4 is Finish,
        a4->Finish_0 is Ok,
        a4->Finish_0->Ok_0@.len() == 2,
        a4->Finish_0->Ok_0@[0] == Value::Boolean(false),
        e.renders_as(a4->Finish_0->Ok_0@[1]),
        e is RuntimeError ==> a4->Finish_0->Ok_0@[1] == e->RuntimeError_0,
{
    assert(m1.frames@ == seq![crate::sequence::Continuation::Protect]);
}

/// A run of `pcall(h)`, where the script function `h` ends with
/// `return pcall(g)` and `g` fails with `e`, succeeds: it finishes with
/// `true`, `false` and the value of `e`.
pub proof fn run_nested_pcall(
    h: u64,
    g: u64,
    e: Error,
    tail: ScriptOutcome,
    m0: Machine,
    m1: Machine,
    m2: Machine,
    m3: Machine,
    m4: Machine,
    m5: Machine,
    m6: Machine,
    m7: Machine,
    m8: Machine,
    m9: Machine,
    a0: Action,
    a1: Action,
    a3: Action,
    a4: Action,
    a6: Action,
    a7: Action,
    a8: Action,
)
    requires
        calls_pcall(m0, seq![Value::Function(Function::Script(h))]),
        m0.steps(m1, a0),
        m1.steps(m2, a1),
        tail is TailCall,
        tail->TailCall_0 == Function::Builtin(Builtin::PCall),
        tail->TailCall_1@ == seq![Value::Function(Function::Script(g))],
        m2.reports(tail, m3),
        m3.steps(m4, a3),
        m4.steps(m5, a4),
        m5.reports(ScriptOutcome::Raise(e), m6),
        m6.steps(m7, a6),
        m7.steps(m8, a7),
        m8.steps(m9, a8),
    ensures
        a1 is RunScript,
        a1->RunScript_0 == h,
        a4 is RunScript,
        a4->RunScript_0 == g,
        a8 is Finish,
        a8->Finish_0 is Ok,
        a8->Finish_0->Ok_0@.len() == 3,
        a8->Finish_0->Ok_0@[0] == Value::Boolean(true),
        a8->Finish_0->Ok_0@[1] == Value::Boolean(false),
        e.renders_as(a8->Finish_0->Ok_0@[2]),
{
    let p = crate::sequence::Continuation::Protect;
    assert(m1.frames@ == seq![p]);
    assert(m4.frames@ == seq![p, p]);
    assert(m7.frames@ == seq![p, p].drop_last());
    assert(m8.frames@ == seq![p].drop_last());
}

} // verus!
