use vstd::prelude::*;
use crate::value::{Builtin, Function, Value};

verus! {

/// What a list of bindings means: later bindings of a name replace earlier ones.
pub open spec fn bindings(es: Seq<(Vec<u8>, Value)>) -> Map<Seq<u8>, Value>
    decreases es.len(),
{
    if es.len() == 0 {
        Map::empty()
    } else {
        bindings(es.drop_last()).insert(es.last().0@, es.last().1)
    }
}

/// Bindings after position `i` that do not bind `k` leave its meaning as it was.
proof fn lemma_bindings_unbound_suffix(es: Seq<(Vec<u8>, Value)>, i: int, k: Seq<u8>)
    requires
        0 <= i <= es.len(),
        forall|j: int| i <= j < es.len() ==> es[j].0@ != k,
    ensures
        bindings(es).contains_key(k) == bindings(es.take(i)).contains_key(k),
        bindings(es).contains_key(k) ==> bindings(es)[k] == bindings(es.take(i))[k],
    decreases es.len(),
{
    if i == es.len() {
        assert(es.take(i) == es);
    } else {
        let rest = es.drop_last();
        assert(rest.take(i) == es.take(i));
        lemma_bindings_unbound_suffix(rest, i, k);
    }
}

/// Whether two byte strings are equal.
pub fn same_bytes(a: &[u8], b: &[u8]) -> (r: bool)
    ensures
        r == (a@ == b@),
{
    if a.len() != b.len() {
        return false;
    }
    let mut i: usize = 0;
    while i < a.len()
        invariant
            i <= a@.len(),
            a@.len() == b@.len(),
            forall|j: int| 0 <= j < i ==> a@[j] == b@[j],
        decreases a@.len() - i,
    {
        if a[i] != b[i] {
            return false;
        }
        i = i + 1;
    }
    assert(a@ =~= b@);
    true
}

/// The global environment: the names that script code can look up.
#[derive(Debug)]
pub struct Globals {
    entries: Vec<(Vec<u8>, Value)>,
}

impl View for Globals {
    type V = Map<Seq<u8>, Value>;

    closed spec fn view(&self) -> Map<Seq<u8>, Value> {
        bindings(self.entries@)
    }
}

impl Globals {
    /// An environment with no names bound.
    pub fn new() -> (g: Globals)
        ensures
            g@ == Map::<Seq<u8>, Value>::empty(),
    {
        Globals { entries: Vec::new() }
    }

    /// Binds `key` to `value`, replacing any earlier binding of `key`.
    pub fn set(&mut self, key: Vec<u8>, value: Value)
        ensures
            final(self)@ == old(self)@.insert(key@, value),
    {
        self.entries.push((key, value));
        assert(self.entries@.drop_last() == old(self).entries@);
    }

    /// The value bound to `key`, if any.
    pub fn get(&self, key: &[u8]) -> (r: Option<&Value>)
        ensures
            match r {
                Some(v) => self@.contains_key(key@) && *v == self@[key@],
                None => !self@.contains_key(key@),
            },
    {
        let mut i: usize = self.entries.len();
        while i > 0
            invariant
                i <= self.entries@.len(),
                forall|j: int| i <= j < self.entries@.len() ==> self.entries@[j].0@ != key@,
            decreases i,
        {
            if same_bytes(self.entries[i - 1].0.as_slice(), key) {
                proof {
                    let es = self.entries@;
                    lemma_bindings_unbound_suffix(es, i as int, key@);
                    assert(es.take(i as int).drop_last() == es.take(i - 1));
                }
                return Some(&self.entries[i - 1].1);
            }
            i = i - 1;
        }
        proof {
            lemma_bindings_unbound_suffix(self.entries@, 0, key@);
        }
        None
    }
}

/// `print`
pub open spec fn print_name() -> Seq<u8> {
    seq![112u8, 114, 105, 110, 116]
}

/// `error`
pub open spec fn error_name() -> Seq<u8> {
    seq![101u8, 114, 114, 111, 114]
}

/// `pcall`
pub open spec fn pcall_name() -> Seq<u8> {
    seq![112u8, 99, 97, 108, 108]
}

/// Binds `print`, `error` and `pcall` in `env`, replacing any earlier bindings
/// of those names and leaving every other name as it was.
pub fn load_base(env: &mut Globals)
    ensures
        final(env)@ == old(env)@.insert(
            print_name(),
            Value::Function(Function::Builtin(Builtin::Print)),
        ).insert(error_name(), Value::Function(Function::Builtin(Builtin::Error))).insert(
            pcall_name(),
            Value::Function(Function::Builtin(Builtin::PCall)),
        ),
{
    env.set(vec![112u8, 114, 105, 110, 116], Value::Function(Function::Builtin(Builtin::Print)));
    env.set(vec![101u8, 114, 114, 111, 114], Value::Function(Function::Builtin(Builtin::Error)));
    env.set(vec![112u8, 99, 97, 108, 108], Value::Function(Function::Builtin(Builtin::PCall)));
}

} // verus!
