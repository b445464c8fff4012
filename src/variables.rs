//! The variables handed to the engine for each run, and the run itself.
use vstd::prelude::*;
use crate::outcome::HurlResult;
use crate::report::new_uuid;

verus! {

/// A value computed anew each time the engine reads it.
#[derive(PartialEq, Eq, Structural, Clone, Copy, Debug)]
pub enum Generator {
    /// A fresh random identifier.
    Uuid,
}

/// The value of a variable.
#[derive(Debug)]
pub enum Value {
    String(String),
    Bool(bool),
    Integer(i64),
    Null,
    Function(Generator),
}

/// The name under which every run can read a fresh identifier.
pub open spec fn uuid_name() -> Seq<char> {
    "-uuid"@
}

impl Value {
    /// A copy of the value.
    pub fn copy(&self) -> (v: Value)
        ensures
            v == *self,
    {
        match self {
            Value::String(s) => Value::String(s.clone()),
            Value::Bool(b) => Value::Bool(*b),
            Value::Integer(n) => Value::Integer(*n),
            Value::Null => Value::Null,
            Value::Function(g) => Value::Function(*g),
        }
    }

    /// The value as read at one point of use: a computed value is computed
    /// there, any other is itself.
    pub fn evaluate(&self) -> (v: Value)
        ensures
            !(*self is Function) ==> v == *self,
            *self is Function ==> v is String && v->String_0@.len() == 36,
    {
        match self {
            Value::Function(Generator::Uuid) => Value::String(new_uuid()),
            _ => self.copy(),
        }
    }
}

/// Variables by name; a name given twice keeps its last value.
#[derive(Debug)]
pub struct Variables {
    pub entries: Vec<(String, Value)>,
}

/// The map that a sequence of assignments leaves, the later ones winning.
pub open spec fn assigned(entries: Seq<(String, Value)>) -> Map<Seq<char>, Value>
    decreases entries.len(),
{
    if entries.len() == 0 {
        Map::empty()
    } else {
        assigned(entries.drop_last()).insert(entries.last().0@, entries.last().1)
    }
}

/// A name is in the map of assignments after the last assignment `i` to it,
/// with its value; when none assigns it, it is absent.
proof fn lemma_assigned_last(entries: Seq<(String, Value)>, k: Seq<char>, i: int)
    requires
        -1 <= i < entries.len(),
        i >= 0 ==> entries[i].0@ == k,
        forall|j: int| i < j < entries.len() ==> (#[trigger] entries[j]).0@ != k,
    ensures
        i >= 0 ==> assigned(entries).contains_key(k) && assigned(entries)[k] == entries[i].1,
        i < 0 ==> !assigned(entries).contains_key(k),
    decreases entries.len(),
{
    if entries.len() > 0 {
        if i == entries.len() - 1 {
        } else {
            let d = entries.drop_last();
            assert forall|j: int| i < j < d.len() implies (#[trigger] d[j]).0@ != k by {
                assert(d[j] == entries[j]);
            }
            lemma_assigned_last(d, k, i);
            assert(entries[entries.len() - 1].0@ != k);
        }
    }
}

impl View for Variables {
    type V = Map<Seq<char>, Value>;

    open spec fn view(&self) -> Map<Seq<char>, Value> {
        assigned(self.entries@)
    }
}

impl Variables {
    /// No variable.
    pub fn new() -> (v: Variables)
        ensures
            v@ == Map::<Seq<char>, Value>::empty(),
    {
        Variables { entries: Vec::new() }
    }

    /// Sets the variable `name` to `value`.
    pub fn insert(&mut self, name: String, value: Value)
        ensures
            final(self)@ == old(self)@.insert(name@, value),
    {
        let ghost before = self.entries@;
        self.entries.push((name, value));
        assert(self.entries@.drop_last() == before);
    }

    /// The value of the variable `name`, if it is set.
    pub fn get(&self, name: &String) -> (r: Option<&Value>)
        ensures
            r is Some <==> self@.contains_key(name@),
            r is Some ==> *r->0 == self@[name@],
    {
        let mut i: usize = self.entries.len();
        while i > 0
            invariant
                0 <= i <= self.entries@.len(),
                forall|j: int| i <= j < self.entries@.len() ==> (#[trigger] self.entries@[j]).0@ != name@,
            decreases i,
        {
            i -= 1;
            if self.entries[i].0 == *name {
                proof { lemma_assigned_last(self.entries@, name@, i as int); }
                return Some(&self.entries[i].1);
            }
        }
        proof { lemma_assigned_last(self.entries@, name@, -1); }
        None
    }

    /// A copy of the variables.
    pub fn copy(&self) -> (v: Variables)
        ensures
            v@ == self@,
    {
        let mut entries: Vec<(String, Value)> = Vec::new();
        let mut i: usize = 0;
        while i < self.entries.len()
            invariant
                0 <= i <= self.entries@.len(),
                entries@.len() == i,
                forall|j: int| 0 <= j < i ==> (#[trigger] entries@[j]).0@ == self.entries@[j].0@
                    && entries@[j].1 == self.entries@[j].1,
            decreases self.entries@.len() - i,
        {
            let name = self.entries[i].0.clone();
            let value = self.entries[i].1.copy();
            entries.push((name, value));
            i += 1;
        }
        proof { lemma_assigned_same(entries@, self.entries@); }
        Variables { entries }
    }
}

/// Two sequences of assignments with the same names and values leave the
/// same map.
proof fn lemma_assigned_same(a: Seq<(String, Value)>, b: Seq<(String, Value)>)
    requires
        a.len() == b.len(),
        forall|j: int| 0 <= j < a.len() ==> (#[trigger] a[j]).0@ == b[j].0@ && a[j].1 == b[j].1,
    ensures
        assigned(a) == assigned(b),
    decreases a.len(),
{
    if a.len() > 0 {
        let (da, db) = (a.drop_last(), b.drop_last());
        assert forall|j: int| 0 <= j < da.len() implies (#[trigger] da[j]).0@ == db[j].0@ && da[j].1 == db[j].1 by {
            assert(da[j] == a[j] && db[j] == b[j]);
        }
        lemma_assigned_same(da, db);
        assert(a.last().0@ == b.last().0@);
    }
}

/// Adds the computed variables that every run can read: a fresh identifier
/// under `-uuid`.
pub fn state_modifier(variables: &mut Variables)
    ensures
        final(variables)@ == old(variables)@.insert(uuid_name(), Value::Function(Generator::Uuid)),
{
    variables.insert(String::from_str("-uuid"), Value::Function(Generator::Uuid));
}

/// The variables of one run: those given by the caller, with the computed
/// ones added.
pub fn run_variables(variables: &Variables) -> (v: Variables)
    ensures
        v@ == variables@.insert(uuid_name(), Value::Function(Generator::Uuid)),
{
    let mut v = variables.copy();
    state_modifier(&mut v);
    v
}

/// The engine that runs the content of one file.
pub trait Runner {
    /// Runs `content`, read from `filename`, with `variables`; an error when
    /// the content cannot be parsed.
    fn run(&mut self, content: &str, filename: &str, variables: &Variables) -> Result<HurlResult, String>;
}

/// Runs the content of one file with the engine, under the caller's
/// variables and the computed ones (see `run_variables`).
pub fn execute<R: Runner>(runner: &mut R, content: &str, filename: &str, variables: &Variables) -> Result<HurlResult, String> {
    let v = run_variables(variables);
    runner.run(content, filename, &v)
}

} // verus!
