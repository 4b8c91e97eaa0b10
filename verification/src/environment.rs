//! The environment that scripts run in, read from the assignments that the
//! environment script prints.

use vstd::prelude::*;
use crate::text::{
    chars_of,
    find_at,
    first_index,
    lines_of,
    split,
    texts,
    trim_end_at,
    trim_spec,
    trim_start_at,
};

verus! {

/// One variable and its value.
#[derive(Clone, Debug)]
pub struct EnvVar {
    pub name: String,
    pub value: String,
}

/// A set of variables, each name at most once.
#[derive(Clone, Debug)]
pub struct Environment {
    pub vars: Vec<EnvVar>,
}

impl View for Environment {
    type V = Map<Seq<char>, Seq<char>>;

    /// The environment as a map from names to values.
    open spec fn view(&self) -> Map<Seq<char>, Seq<char>> {
        Map::new(
            |name: Seq<char>| self.position_of(name) is Some,
            |name: Seq<char>| self.vars[self.position_of(name)->0].value@,
        )
    }
}

impl Environment {
    /// No name occurs twice.
    pub open spec fn distinct(self) -> bool {
        forall|i: int, j: int|
            0 <= i < j < self.vars.len() ==> (#[trigger] self.vars[i]).name@ != (
            #[trigger] self.vars[j]).name@
    }

    /// Whether `name` stands at index `i`.
    pub open spec fn holds_at(self, name: Seq<char>, i: int) -> bool {
        0 <= i < self.vars.len() && self.vars[i].name@ == name
    }

    /// Where `name` stands, if it is there.
    pub open spec fn position_of(self, name: Seq<char>) -> Option<int> {
        if exists|i: int| self.holds_at(name, i) {
            Some(choose|i: int| self.holds_at(name, i))
        } else {
            None
        }
    }

    /// In an environment without repeats, a name stands where it is found.
    pub proof fn lemma_position(self, name: Seq<char>, i: int)
        requires
            self.distinct(),
            self.holds_at(name, i),
        ensures
            self.position_of(name) == Some(i),
    {
        let j = choose|j: int| self.holds_at(name, j);
        if i < j {
            assert(self.vars[i].name@ != self.vars[j].name@);
        } else if j < i {
            assert(self.vars[j].name@ != self.vars[i].name@);
        }
    }

    /// The empty environment.
    pub fn new() -> (env: Environment)
        ensures
            env.distinct(),
            env@ == Map::<Seq<char>, Seq<char>>::empty(),
    {
        let env = Environment { vars: Vec::new() };
        assert(env@ =~= Map::<Seq<char>, Seq<char>>::empty()) by {
            assert forall|name: Seq<char>| env.position_of(name) is None by {
                assert forall|i: int| !env.holds_at(name, i) by {}
            }
        }
        env
    }

    /// The index at which `name` stands.
    pub fn find(&self, name: &String) -> (found: Option<usize>)
        requires
            self.distinct(),
        ensures
            match found {
                Some(i) => self.position_of(name@) == Some(i as int) && self.holds_at(
                    name@,
                    i as int,
                ),
                None => self.position_of(name@) is None,
            },
    {
        let mut i: usize = 0;
        while i < self.vars.len()
            invariant
                i <= self.vars.len(),
                self.distinct(),
                forall|k: int| 0 <= k < i ==> !self.holds_at(name@, k),
            decreases self.vars.len() - i,
        {
            if self.vars[i].name == *name {
                proof {
                    self.lemma_position(name@, i as int);
                }
                return Some(i);
            }
            i += 1;
        }
        assert forall|k: int| !self.holds_at(name@, k) by {}
        None
    }

    /// The value of `name`, if it is set.
    pub fn get(&self, name: &String) -> (value: Option<String>)
        requires
            self.distinct(),
        ensures
            value is Some <==> self@.contains_key(name@),
            value is Some ==> value->0@ == self@[name@],
    {
        match self.find(name) {
            Some(i) => Some(self.vars[i].value.clone()),
            None => None,
        }
    }

    /// Sets `name` to `value`; a value it had before is replaced.
    pub fn insert(&mut self, name: String, value: String)
        requires
            old(self).distinct(),
        ensures
            final(self).distinct(),
            final(self)@ == old(self)@.insert(name@, value@),
    {
        let ghost before = *self;
        match self.find(&name) {
            Some(i) => {
                self.vars.set(i, EnvVar { name, value });
                proof {
                    let after = *self;
                    assert forall|k: int|
                        0 <= k < after.vars.len() implies after.vars[k].name@
                        == before.vars[k].name@ by {}
                    assert(after.distinct());
                    assert forall|n: Seq<char>| after.position_of(n) == before.position_of(n) by {
                        if exists|k: int| before.holds_at(n, k) {
                            let k = choose|k: int| before.holds_at(n, k);
                            before.lemma_position(n, k);
                            assert(after.holds_at(n, k));
                            after.lemma_position(n, k);
                        } else {
                            assert forall|k: int| !after.holds_at(n, k) by {
                                assert(!before.holds_at(n, k));
                            }
                        }
                    }
                    assert(after@ =~= before@.insert(name@, value@));
                }
            },
            None => {
                self.vars.push(EnvVar { name, value });
                proof {
                    let after = *self;
                    let last = before.vars.len() as int;
                    assert forall|k: int| 0 <= k < last implies after.vars[k] == before.vars[k] by {}
                    assert forall|a: int, b: int| 0 <= a < b < after.vars.len() implies (
                    #[trigger] after.vars[a]).name@ != (#[trigger] after.vars[b]).name@ by {
                        if b == last {
                            assert(!before.holds_at(name@, a));
                        }
                    }
                    assert(after.holds_at(name@, last));
                    after.lemma_position(name@, last);
                    assert forall|n: Seq<char>| n != name@ implies after.position_of(n)
                        == before.position_of(n) by {
                        if exists|k: int| before.holds_at(n, k) {
                            let k = choose|k: int| before.holds_at(n, k);
                            before.lemma_position(n, k);
                            assert(after.holds_at(n, k));
                            after.lemma_position(n, k);
                        } else {
                            assert forall|k: int| !after.holds_at(n, k) by {
                                assert(!before.holds_at(n, k));
                            }
                        }
                    }
                    assert(after@ =~= before@.insert(name@, value@));
                }
            },
        }
    }
}

/// `s` without any `c`.
pub open spec fn without(s: Seq<char>, c: char) -> Seq<char>
    decreases s.len(),
{
    if s.len() == 0 {
        s
    } else if s.last() == c {
        without(s.drop_last(), c)
    } else {
        without(s.drop_last(), c).push(s.last())
    }
}

/// A name or a value as written: without the white space around it and
/// without double quotes.
pub open spec fn bare(s: Seq<char>) -> Seq<char> {
    without(trim_spec(s), '"')
}

/// What a line assigns, if anything. A comment assigns nothing, nor does a
/// line without `=`; otherwise the first `=` parts the name from the value.
pub open spec fn assignment_of(line: Seq<char>) -> Option<(Seq<char>, Seq<char>)> {
    let at = first_index(line, '=');
    if (line.len() > 0 && line[0] == '#') || at >= line.len() {
        None
    } else {
        Some((bare(line.take(at)), bare(line.skip(at + 1))))
    }
}

/// The environment that the lines set up, a later line overriding an
/// earlier one.
pub open spec fn environment_of(lines: Seq<Seq<char>>) -> Map<Seq<char>, Seq<char>>
    decreases lines.len(),
{
    if lines.len() == 0 {
        Map::empty()
    } else {
        let before = environment_of(lines.drop_last());
        match assignment_of(lines.last()) {
            Some((name, value)) => before.insert(name, value),
            None => before,
        }
    }
}

/// `v[from..to]`, trimmed and without double quotes.
fn bare_text(v: &Vec<char>, from: usize, to: usize) -> (text: String)
    requires
        from <= to <= v.len(),
    ensures
        text@ == bare(v@.subrange(from as int, to as int)),
{
    let a = trim_start_at(v, from, to);
    let b = trim_end_at(v, a, to);
    let mut text = String::new();
    let mut i: usize = a;
    assert(v@.subrange(a as int, a as int) =~= Seq::<char>::empty());
    assert(text@ =~= without(v@.subrange(a as int, a as int), '"'));
    while i < b
        invariant
            a <= i <= b <= v.len(),
            text@ == without(v@.subrange(a as int, i as int), '"'),
        decreases b - i,
    {
        proof {
            let next = v@.subrange(a as int, i as int + 1);
            assert(next.drop_last() =~= v@.subrange(a as int, i as int));
            assert(next.last() == v[i as int]);
        }
        if v[i] != '"' {
            text.push(v[i]);
        }
        i += 1;
    }
    text
}

/// Reads one line: the variable it assigns, if any.
pub fn parse_assignment(line: &str) -> (assigned: Option<EnvVar>)
    ensures
        match assigned {
            Some(var) => assignment_of(line@) == Some((var.name@, var.value@)),
            None => assignment_of(line@) is None,
        },
{
    let v = chars_of(line);
    let n = v.len();
    assert(v@.subrange(0, n as int) == v@);
    let at = find_at(&v, '=', 0, n);
    if (n > 0 && v[0] == '#') || at >= n {
        return None;
    }
    assert(v@.take(at as int) == v@.subrange(0, at as int));
    assert(v@.skip(at as int + 1) == v@.subrange(at as int + 1, n as int));
    let name = bare_text(&v, 0, at);
    let value = bare_text(&v, at + 1, n);
    Some(EnvVar { name, value })
}

/// Reads the environment from what the environment script printed.
pub fn get_environment(text: &str) -> (env: Environment)
    ensures
        env.distinct(),
        env@ == environment_of(lines_of(text@)),
{
    let lines = split(text, '\n');
    let mut env = Environment::new();
    let mut i: usize = 0;
    assert(texts(lines@).take(0) =~= Seq::<Seq<char>>::empty());
    while i < lines.len()
        invariant
            i <= lines.len(),
            texts(lines@) == lines_of(text@),
            env.distinct(),
            env@ == environment_of(texts(lines@).take(i as int)),
        decreases lines.len() - i,
    {
        proof {
            let seen = texts(lines@).take(i as int + 1);
            assert(seen.drop_last() =~= texts(lines@).take(i as int));
            assert(seen.last() == lines[i as int]@);
        }
        match parse_assignment(lines[i].as_str()) {
            Some(var) => {
                env.insert(var.name, var.value);
            },
            None => {},
        }
        i += 1;
    }
    assert(texts(lines@).take(i as int) =~= texts(lines@));
    env
}

} // verus!
