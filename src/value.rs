use vstd::prelude::*;

verus! {

/// The host functions that the base library binds into the global table.
#[derive(Clone, Copy, Debug, PartialEq, Eq, Structural)]
pub enum Builtin {
    Print,
    Error,
    PCall,
}

/// A callable value: a host function, or a script function known to the
/// evaluator by its identity.
#[derive(Clone, Copy, Debug, PartialEq, Eq, Structural)]
pub enum Function {
    Builtin(Builtin),
    Script(u64),
}

/// The kind of a value, as reported in type errors.
#[derive(Clone, Copy, Debug, PartialEq, Eq, Structural)]
pub enum TypeName {
    Nil,
    Boolean,
    Integer,
    String,
    Table,
    Function,
    Thread,
}

/// Every runtime datum. Tables and threads are referred to by identity; their
/// storage belongs to the runtime.
#[derive(Debug, PartialEq, Eq)]
pub enum Value {
    Nil,
    Boolean(bool),
    Integer(i64),
    String(Vec<u8>),
    Table(u64),
    Function(Function),
    Thread(u64),
}

/// The decimal digits of `n`, most significant first.
pub open spec fn decimal(n: nat) -> Seq<u8>
    decreases n,
{
    if n < 10 {
        seq![(48 + n) as u8]
    } else {
        decimal(n / 10).push((48 + n % 10) as u8)
    }
}

/// The text of an integer: an optional minus sign, then its decimal digits.
pub open spec fn integer_text(i: int) -> Seq<u8> {
    if i < 0 {
        seq![45u8] + decimal((-i) as nat)
    } else {
        decimal(i as nat)
    }
}

pub open spec fn type_name_text(t: TypeName) -> Seq<u8> {
    match t {
        TypeName::Nil => seq![110u8, 105, 108],
        TypeName::Boolean => seq![98u8, 111, 111, 108, 101, 97, 110],
        TypeName::Integer => seq![105u8, 110, 116, 101, 103, 101, 114],
        TypeName::String => seq![115u8, 116, 114, 105, 110, 103],
        TypeName::Table => seq![116u8, 97, 98, 108, 101],
        TypeName::Function => seq![102u8, 117, 110, 99, 116, 105, 111, 110],
        TypeName::Thread => seq![116u8, 104, 114, 101, 97, 100],
    }
}

pub open spec fn builtin_name(b: Builtin) -> Seq<u8> {
    match b {
        Builtin::Print => seq![112u8, 114, 105, 110, 116],
        Builtin::Error => seq![101u8, 114, 114, 111, 114],
        Builtin::PCall => seq![112u8, 99, 97, 108, 108],
    }
}

/// `<kind label>`: how values that are referred to by identity are shown.
pub open spec fn bracketed(kind: Seq<u8>, label: Seq<u8>) -> Seq<u8> {
    seq![60u8] + kind + seq![32u8] + label + seq![62u8]
}

/// The display form of a value, as `print` writes it.
pub open spec fn display_form(v: Value) -> Seq<u8> {
    match v {
        Value::Nil => type_name_text(TypeName::Nil),
        Value::Boolean(b) => if b {
            seq![116u8, 114, 117, 101]
        } else {
            seq![102u8, 97, 108, 115, 101]
        },
        Value::Integer(i) => integer_text(i as int),
        Value::String(s) => s@,
        Value::Table(id) => bracketed(type_name_text(TypeName::Table), decimal(id as nat)),
        Value::Function(Function::Builtin(b)) => bracketed(
            type_name_text(TypeName::Function),
            builtin_name(b),
        ),
        Value::Function(Function::Script(id)) => bracketed(
            type_name_text(TypeName::Function),
            decimal(id as nat),
        ),
        Value::Thread(id) => bracketed(type_name_text(TypeName::Thread), decimal(id as nat)),
    }
}

/// Appends the bytes of `s` to `out`.
pub fn push_bytes(out: &mut Vec<u8>, s: &[u8])
    ensures
        final(out)@ == old(out)@ + s@,
{
    let mut i: usize = 0;
    while i < s.len()
        invariant
            i <= s@.len(),
            out@ == old(out)@ + s@.subrange(0, i as int),
        decreases s@.len() - i,
    {
        out.push(s[i]);
        i = i + 1;
        assert(s@.subrange(0, i as int) == s@.subrange(0, i - 1 as int).push(s@[i - 1]));
    }
    assert(s@.subrange(0, s@.len() as int) == s@);
}

/// Appends the decimal digits of `n` to `out`.
pub fn push_decimal(out: &mut Vec<u8>, n: u64)
    ensures
        final(out)@ == old(out)@ + decimal(n as nat),
    decreases n,
{
    if n >= 10 {
        push_decimal(out, n / 10);
    }
    out.push((48 + n % 10) as u8);
}

impl TypeName {
    /// The name of this kind, as it appears in messages.
    pub fn text(&self) -> (r: Vec<u8>)
        ensures
            r@ == type_name_text(*self),
    {
        let r = match self {
            TypeName::Nil => vec![110u8, 105, 108],
            TypeName::Boolean => vec![98u8, 111, 111, 108, 101, 97, 110],
            TypeName::Integer => vec![105u8, 110, 116, 101, 103, 101, 114],
            TypeName::String => vec![115u8, 116, 114, 105, 110, 103],
            TypeName::Table => vec![116u8, 97, 98, 108, 101],
            TypeName::Function => vec![102u8, 117, 110, 99, 116, 105, 111, 110],
            TypeName::Thread => vec![116u8, 104, 114, 101, 97, 100],
        };
        assert(r@ == type_name_text(*self));
        r
    }
}

/// Appends `<kind label>` given the kind's text; the label is written by the caller.
fn push_open(out: &mut Vec<u8>, kind: TypeName)
    ensures
        final(out)@ == old(out)@ + seq![60u8] + type_name_text(kind) + seq![32u8],
{
    out.push(60u8);
    let t = kind.text();
    push_bytes(out, t.as_slice());
    out.push(32u8);
}

impl Value {
    pub open spec fn type_of(&self) -> TypeName {
        match self {
            Value::Nil => TypeName::Nil,
            Value::Boolean(_) => TypeName::Boolean,
            Value::Integer(_) => TypeName::Integer,
            Value::String(_) => TypeName::String,
            Value::Table(_) => TypeName::Table,
            Value::Function(_) => TypeName::Function,
            Value::Thread(_) => TypeName::Thread,
        }
    }

    /// The kind of this value.
    pub fn kind(&self) -> (r: TypeName)
        ensures
            r == self.type_of(),
    {
        match self {
            Value::Nil => TypeName::Nil,
            Value::Boolean(_) => TypeName::Boolean,
            Value::Integer(_) => TypeName::Integer,
            Value::String(_) => TypeName::String,
            Value::Table(_) => TypeName::Table,
            Value::Function(_) => TypeName::Function,
            Value::Thread(_) => TypeName::Thread,
        }
    }

    /// Appends the display form of this value to `out`.
    pub fn display(&self, out: &mut Vec<u8>)
        ensures
            final(out)@ == old(out)@ + display_form(*self),
    {
        match self {
            Value::Nil => {
                let t = TypeName::Nil.text();
                push_bytes(out, t.as_slice());
            },
            Value::Boolean(b) => {
                if *b {
                    push_bytes(out, vec![116u8, 114, 117, 101].as_slice());
                } else {
                    push_bytes(out, vec![102u8, 97, 108, 115, 101].as_slice());
                }
            },
            Value::Integer(i) => {
                if *i < 0 {
                    out.push(45u8);
                    let magnitude: u64 = (-(*i + 1)) as u64 + 1;
                    push_decimal(out, magnitude);
                } else {
                    push_decimal(out, *i as u64);
                }
            },
            Value::String(s) => {
                push_bytes(out, s.as_slice());
            },
            Value::Table(id) => {
                push_open(out, TypeName::Table);
                push_decimal(out, *id);
                out.push(62u8);
            },
            Value::Function(Function::Builtin(b)) => {
                push_open(out, TypeName::Function);
                let name = match b {
                    Builtin::Print => vec![112u8, 114, 105, 110, 116],
                    Builtin::Error => vec![101u8, 114, 114, 111, 114],
                    Builtin::PCall => vec![112u8, 99, 97, 108, 108],
                };
                assert(name@ == builtin_name(*b));
                push_bytes(out, name.as_slice());
                out.push(62u8);
            },
            Value::Function(Function::Script(id)) => {
                push_open(out, TypeName::Function);
                push_decimal(out, *id);
                out.push(62u8);
            },
            Value::Thread(id) => {
                push_open(out, TypeName::Thread);
                push_decimal(out, *id);
                out.push(62u8);
            },
        }
        assert(final(out)@ == old(out)@ + display_form(*self));
    }
}

} // verus!
