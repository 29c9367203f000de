use vstd::prelude::*;
use crate::error::Error;
use crate::sequence::{Continuation, Outcome, Sequence, Start};
use crate::value::{display_form, Builtin, Function, TypeName, Value};

verus! {

/// The display forms of `vs`, separated by single tabs.
pub open spec fn joined(vs: Seq<Value>) -> Seq<u8>
    decreases vs.len(),
{
    if vs.len() == 0 {
        seq![]
    } else if vs.len() == 1 {
        display_form(vs[0])
    } else {
        joined(vs.drop_last()) + seq![9u8] + display_form(vs.last())
    }
}

/// What `print` writes for `vs`: their display forms, tab-separated, then a newline.
pub open spec fn print_text(vs: Seq<Value>) -> Seq<u8> {
    joined(vs) + seq![10u8]
}

/// The first argument, or nil when there is none.
pub open spec fn first_or_nil(args: Seq<Value>) -> Value {
    if args.len() > 0 {
        args[0]
    } else {
        Value::Nil
    }
}

/// Whether `r` is what `pcall` gives for `args`: a type error when the first
/// argument is not a function, else a sequence that calls it with the remaining
/// arguments and protects the outcome.
pub open spec fn pcall_result(args: Seq<Value>, r: Result<Sequence, Error>) -> bool {
    match first_or_nil(args) {
        Value::Function(f) => match r {
            Ok(s) => s.continuations@ == seq![Continuation::Protect] && match s.start {
                Start::Call(g, rest) => g == f && rest@ == args.drop_first(),
                Start::Ready(_) => false,
            },
            Err(_) => false,
        },
        other => r == Err::<Sequence, Error>(
            Error::TypeError { expected: TypeName::Function, found: other.type_of() },
        ),
    }
}

/// The bytes that `print` writes for `args`. Writing them out and flushing is
/// the host's part; `print_finish` turns how that went into the call's outcome.
pub fn print_output(args: &Vec<Value>) -> (r: Vec<u8>)
    ensures
        r@ == print_text(args@),
{
    let mut out: Vec<u8> = Vec::new();
    let mut i: usize = 0;
    while i < args.len()
        invariant
            i <= args@.len(),
            out@ == joined(args@.take(i as int)),
        decreases args@.len() - i,
    {
        assert(args@.take(i + 1 as int).drop_last() == args@.take(i as int));
        if i > 0 {
            out.push(9u8);
        }
        args[i].display(&mut out);
        i = i + 1;
    }
    assert(args@.take(args@.len() as int) == args@);
    out.push(10u8);
    out
}

/// The outcome of `print`, given how writing and flushing its output went: no
/// results, or the host's failure as an I/O error.
pub fn print_finish(written: Result<(), Vec<u8>>) -> (r: Outcome)
    ensures
        match written {
            Ok(()) => r is Ok && r->Ok_0@.len() == 0,
            Err(message) => r == Err::<Vec<Value>, Error>(Error::IOError(message)),
        },
{
    match written {
        Ok(()) => Ok(Vec::new()),
        Err(message) => Err(Error::IOError(message)),
    }
}

/// `error`: fails with the first argument (nil when there is none) as the
/// raised value, unchanged.
pub fn error(args: Vec<Value>) -> (r: Outcome)
    ensures
        r == Err::<Vec<Value>, Error>(Error::RuntimeError(first_or_nil(args@))),
{
    if args.len() == 0 {
        Err(Error::RuntimeError(Value::Nil))
    } else {
        let mut args = args;
        let first = args.remove(0);
        Err(Error::RuntimeError(first))
    }
}

/// `pcall`: checks that the first argument is a function, then calls it with
/// the rest and turns its outcome into ordinary results. A first argument that
/// is not a function is reported as a type error, which is not caught here.
pub fn pcall(args: Vec<Value>) -> (r: Result<Sequence, Error>)
    ensures
        pcall_result(args@, r),
{
    if args.len() == 0 {
        return Err(Error::TypeError { expected: TypeName::Function, found: TypeName::Nil });
    }
    let found = args[0].kind();
    match &args[0] {
        Value::Function(f) => {
            let f = *f;
            let mut rest = args;
            rest.remove(0);
            assert(rest@ == args@.drop_first());
            let s = Sequence::call(f, rest).and_then(Continuation::Protect);
            assert(s.continuations@ == seq![Continuation::Protect]);
            Ok(s)
        },
        _ => Err(Error::TypeError { expected: TypeName::Function, found }),
    }
}

/// What invoking a host function gives.
#[derive(Debug)]
pub enum Invocation {
    /// The host is to write these bytes, flush, and hand the result to
    /// `print_finish`.
    Output(Vec<u8>),
    /// The call completed at once.
    Done(Outcome),
    /// The call goes on as this sequence.
    Sequence(Sequence),
}

impl Builtin {
    /// Whether this function runs as a sequence rather than completing at once.
    pub open spec fn sequenced(self) -> bool {
        self == Builtin::PCall
    }

    pub fn is_sequenced(&self) -> (r: bool)
        ensures
            r == self.sequenced(),
    {
        match self {
            Builtin::PCall => true,
            _ => false,
        }
    }

    /// Whether `r` is what invoking this function on `args` gives.
    pub open spec fn invokes(self, args: Seq<Value>, r: Invocation) -> bool {
        match self {
            Builtin::Print => r is Output && r->Output_0@ == print_text(args),
            Builtin::Error => r == Invocation::Done(
                Err(Error::RuntimeError(first_or_nil(args))),
            ),
            Builtin::PCall => match r {
                Invocation::Sequence(s) => pcall_result(args, Ok(s)),
                Invocation::Done(Err(e)) => pcall_result(args, Err(e)),
                _ => false,
            },
        }
    }

    /// Invokes this function on `args`.
    pub fn invoke(self, args: Vec<Value>) -> (r: Invocation)
        ensures
            self.invokes(args@, r),
    {
        match self {
            Builtin::Print => Invocation::Output(print_output(&args)),
            Builtin::Error => Invocation::Done(error(args)),
            Builtin::PCall => match pcall(args) {
                Ok(s) => Invocation::Sequence(s),
                Err(e) => Invocation::Done(Err(e)),
            },
        }
    }
}

} // verus!
