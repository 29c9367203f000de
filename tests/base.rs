use luster::base::{error, pcall, print_finish, print_output, Invocation};
use luster::error::Error;
use luster::globals::{load_base, Globals};
use luster::machine::{Action, Machine, ScriptOutcome};
use luster::sequence::{Continuation, Outcome, Sequence, Start};
use luster::value::{Builtin, Function, TypeName, Value};

fn text(s: &str) -> Value {
    Value::String(s.as_bytes().to_vec())
}

fn script(id: u64) -> Value {
    Value::Function(Function::Script(id))
}

fn builtin(b: Builtin) -> Value {
    Value::Function(Function::Builtin(b))
}

/// Drives a run to its end. `scripts` stands in for the evaluator; written
/// output is collected in `out`, and the values of each suspension in `yields`.
fn run(
    mut m: Machine,
    scripts: &dyn Fn(u64, Vec<Value>) -> ScriptOutcome,
    out: &mut Vec<u8>,
    yields: &mut Vec<Vec<Value>>,
) -> Outcome {
    loop {
        match m.step() {
            Action::Write(bytes) => {
                out.extend_from_slice(&bytes);
                assert!(m.output_done(Ok(())));
            }
            Action::RunScript(id, args) => {
                assert!(m.script_done(scripts(id, args)));
            }
            Action::Yield(vs) => {
                yields.push(vs);
                assert!(m.script_done(ScriptOutcome::Return(vec![])));
            }
            Action::Step => {}
            Action::Finish(o) => return o,
            Action::Blocked => panic!("the run is blocked"),
        }
    }
}

fn run_simple(f: Function, args: Vec<Value>, scripts: &dyn Fn(u64, Vec<Value>) -> ScriptOutcome) -> Outcome {
    let mut out = Vec::new();
    let mut yields = Vec::new();
    run(Machine::start(f, args), scripts, &mut out, &mut yields)
}

fn pcall_sequence(args: Vec<Value>) -> Sequence {
    match pcall(args) {
        Ok(s) => s,
        Err(e) => panic!("pcall refused its arguments: {:?}", e),
    }
}

#[test]
fn print_no_arguments_is_a_newline() {
    assert_eq!(print_output(&vec![]), b"\n".to_vec());
}

#[test]
fn print_joins_with_tabs() {
    let args = vec![Value::Integer(-12), text("hi"), Value::Nil, Value::Boolean(true), Value::Boolean(false)];
    assert_eq!(print_output(&args), b"-12\thi\tnil\ttrue\tfalse\n".to_vec());
}

#[test]
fn print_single_argument_has_no_tab() {
    assert_eq!(print_output(&vec![Value::Integer(0)]), b"0\n".to_vec());
}

#[test]
fn print_integer_extremes() {
    let args = vec![Value::Integer(i64::MIN), Value::Integer(i64::MAX), Value::Integer(7), Value::Integer(10)];
    assert_eq!(
        print_output(&args),
        b"-9223372036854775808\t9223372036854775807\t7\t10\n".to_vec()
    );
}

#[test]
fn print_reference_values() {
    let args = vec![Value::Table(3), builtin(Builtin::Print), script(42), Value::Thread(0)];
    assert_eq!(
        print_output(&args),
        b"<table 3>\t<function print>\t<function 42>\t<thread 0>\n".to_vec()
    );
}

#[test]
fn print_finish_success_and_failure() {
    assert_eq!(print_finish(Ok(())), Ok(vec![]));
    assert_eq!(
        print_finish(Err(b"broken pipe".to_vec())),
        Err(Error::IOError(b"broken pipe".to_vec()))
    );
}

#[test]
fn error_raises_first_argument_unchanged() {
    let raised = error(vec![Value::Table(9), Value::Integer(1)]);
    assert_eq!(raised, Err(Error::RuntimeError(Value::Table(9))));
    let raised = error(vec![text("boom")]);
    assert_eq!(raised, Err(Error::RuntimeError(text("boom"))));
}

#[test]
fn error_without_arguments_raises_nil() {
    assert_eq!(error(vec![]), Err(Error::RuntimeError(Value::Nil)));
}

#[test]
fn pcall_rejects_non_function() {
    match pcall(vec![Value::Integer(3), script(1)]) {
        Err(e) => assert_eq!(e, Error::TypeError { expected: TypeName::Function, found: TypeName::Integer }),
        Ok(_) => panic!("expected a type error"),
    }
    match pcall(vec![]) {
        Err(e) => assert_eq!(e, Error::TypeError { expected: TypeName::Function, found: TypeName::Nil }),
        Ok(_) => panic!("expected a type error"),
    }
}

#[test]
fn pcall_calls_with_remaining_arguments() {
    let s = pcall_sequence(vec![script(5), Value::Integer(1), text("x")]);
    assert_eq!(s.continuations, vec![Continuation::Protect]);
    match s.start {
        Start::Call(f, rest) => {
            assert_eq!(f, Function::Script(5));
            assert_eq!(rest, vec![Value::Integer(1), text("x")]);
        }
        Start::Ready(_) => panic!("expected a call"),
    }
}

#[test]
fn protect_success_prepends_true() {
    let r = Continuation::Protect.resume(Ok(vec![Value::Integer(1), Value::Integer(2)]));
    assert_eq!(r, Ok(vec![Value::Boolean(true), Value::Integer(1), Value::Integer(2)]));
    let r = Continuation::Protect.resume(Ok(vec![]));
    assert_eq!(r, Ok(vec![Value::Boolean(true)]));
}

#[test]
fn protect_failure_gives_false_and_value() {
    let r = Continuation::Protect.resume(Err(Error::RuntimeError(Value::Table(7))));
    assert_eq!(r, Ok(vec![Value::Boolean(false), Value::Table(7)]));
    let r = Continuation::Protect.resume(Err(Error::TypeError {
        expected: TypeName::Function,
        found: TypeName::Boolean,
    }));
    assert_eq!(r, Ok(vec![Value::Boolean(false), text("type error, expected function, found boolean")]));
    let r = Continuation::Protect.resume(Err(Error::IOError(b"disk full".to_vec())));
    assert_eq!(r, Ok(vec![Value::Boolean(false), text("io error: disk full")]));
}

#[test]
fn error_to_value() {
    assert_eq!(Error::RuntimeError(Value::Nil).to_value(), Value::Nil);
    assert_eq!(
        Error::TypeError { expected: TypeName::Function, found: TypeName::Table }.to_value(),
        text("type error, expected function, found table")
    );
}

#[test]
fn sequence_and_then_keeps_order() {
    let s = Sequence::ready(Ok(vec![])).and_then(Continuation::Protect).and_then(Continuation::Protect);
    assert_eq!(s.continuations.len(), 2);
    assert!(matches!(s.start, Start::Ready(Ok(ref v)) if v.is_empty()));
}

#[test]
fn builtin_invoke_and_modes() {
    assert!(Builtin::PCall.is_sequenced());
    assert!(!Builtin::Print.is_sequenced());
    assert!(!Builtin::Error.is_sequenced());
    assert!(matches!(Builtin::Print.invoke(vec![Value::Integer(4)]), Invocation::Output(ref b) if b == b"4\n"));
    assert!(matches!(
        Builtin::Error.invoke(vec![Value::Boolean(true)]),
        Invocation::Done(Err(Error::RuntimeError(Value::Boolean(true))))
    ));
    assert!(matches!(Builtin::PCall.invoke(vec![script(1)]), Invocation::Sequence(_)));
    assert!(matches!(Builtin::PCall.invoke(vec![Value::Nil]), Invocation::Done(Err(Error::TypeError { .. }))));
}

#[test]
fn machine_pcall_returns_results() {
    let scripts = |id: u64, args: Vec<Value>| {
        assert_eq!(id, 1);
        assert_eq!(args, vec![Value::Integer(10), Value::Integer(20)]);
        ScriptOutcome::Return(vec![text("a"), Value::Integer(2)])
    };
    let r = run_simple(
        Function::Builtin(Builtin::PCall),
        vec![script(1), Value::Integer(10), Value::Integer(20)],
        &scripts,
    );
    assert_eq!(r, Ok(vec![Value::Boolean(true), text("a"), Value::Integer(2)]));
}

#[test]
fn machine_pcall_no_results() {
    let scripts = |_: u64, _: Vec<Value>| ScriptOutcome::Return(vec![]);
    let r = run_simple(Function::Builtin(Builtin::PCall), vec![script(1)], &scripts);
    assert_eq!(r, Ok(vec![Value::Boolean(true)]));
}

#[test]
fn machine_pcall_catches_error() {
    // the protected function is `error` itself, raising a table
    let scripts = |_: u64, _: Vec<Value>| ScriptOutcome::Return(vec![]);
    let r = run_simple(
        Function::Builtin(Builtin::PCall),
        vec![builtin(Builtin::Error), Value::Table(4)],
        &scripts,
    );
    assert_eq!(r, Ok(vec![Value::Boolean(false), Value::Table(4)]));
}

#[test]
fn machine_pcall_type_error_is_not_caught() {
    let scripts = |_: u64, _: Vec<Value>| ScriptOutcome::Return(vec![]);
    let r = run_simple(Function::Builtin(Builtin::PCall), vec![Value::Integer(1)], &scripts);
    assert_eq!(r, Err(Error::TypeError { expected: TypeName::Function, found: TypeName::Integer }));
}

#[test]
fn machine_nested_pcall() {
    // script 1: `return pcall(g)`; script 2 (g): `error("bad")`
    let scripts = |id: u64, _: Vec<Value>| match id {
        1 => ScriptOutcome::TailCall(Function::Builtin(Builtin::PCall), vec![script(2)]),
        _ => ScriptOutcome::Raise(Error::RuntimeError(text("bad"))),
    };
    let r = run_simple(Function::Builtin(Builtin::PCall), vec![script(1)], &scripts);
    assert_eq!(r, Ok(vec![Value::Boolean(true), Value::Boolean(false), text("bad")]));
}

#[test]
fn machine_print_writes_output() {
    let scripts = |_: u64, _: Vec<Value>| ScriptOutcome::Return(vec![]);
    let mut out = Vec::new();
    let mut yields = Vec::new();
    let m = Machine::start(Function::Builtin(Builtin::Print), vec![Value::Integer(1), text("two")]);
    let r = run(m, &scripts, &mut out, &mut yields);
    assert_eq!(r, Ok(vec![]));
    assert_eq!(out, b"1\ttwo\n".to_vec());
}

#[test]
fn machine_print_failure_is_io_error() {
    let mut m = Machine::start(Function::Builtin(Builtin::Print), vec![]);
    assert!(matches!(m.step(), Action::Write(_)));
    assert!(matches!(m.step(), Action::Blocked));
    assert!(m.output_done(Err(b"closed".to_vec())));
    assert!(matches!(m.step(), Action::Finish(Err(Error::IOError(ref msg))) if msg == b"closed"));
    assert!(matches!(m.step(), Action::Blocked));
}

#[test]
fn machine_yield_across_pcall_fails_inside_it() {
    let scripts = |_: u64, _: Vec<Value>| ScriptOutcome::Yield(vec![Value::Integer(1)]);
    let mut out = Vec::new();
    let mut yields = Vec::new();
    let m = Machine::start(Function::Builtin(Builtin::PCall), vec![script(1)]);
    let r = run(m, &scripts, &mut out, &mut yields);
    assert!(yields.is_empty());
    assert_eq!(
        r,
        Ok(vec![Value::Boolean(false), text("attempt to yield across a protected call")])
    );
}

#[test]
fn machine_yield_outside_pcall_suspends() {
    let mut m = Machine::start(Function::Script(3), vec![]);
    assert!(matches!(m.step(), Action::RunScript(3, _)));
    assert!(!m.output_done(Ok(())));
    assert!(m.script_done(ScriptOutcome::Yield(vec![Value::Integer(8)])));
    assert!(matches!(m.step(), Action::Yield(ref vs) if vs == &vec![Value::Integer(8)]));
    assert!(m.script_done(ScriptOutcome::Return(vec![Value::Integer(9)])));
    assert!(matches!(m.step(), Action::Finish(Ok(ref vs)) if vs == &vec![Value::Integer(9)]));
}

#[test]
fn globals_load_base_binds_three_names() {
    let mut env = Globals::new();
    env.set(b"print".to_vec(), Value::Integer(1));
    env.set(b"other".to_vec(), Value::Integer(2));
    load_base(&mut env);
    assert_eq!(env.get(b"print"), Some(&builtin(Builtin::Print)));
    assert_eq!(env.get(b"error"), Some(&builtin(Builtin::Error)));
    assert_eq!(env.get(b"pcall"), Some(&builtin(Builtin::PCall)));
    assert_eq!(env.get(b"other"), Some(&Value::Integer(2)));
    assert_eq!(env.get(b"missing"), None);
}

#[test]
fn value_kinds() {
    assert_eq!(Value::Nil.kind(), TypeName::Nil);
    assert_eq!(text("s").kind(), TypeName::String);
    assert_eq!(script(1).kind(), TypeName::Function);
    assert_eq!(TypeName::Thread.text(), b"thread".to_vec());
}
