//! The key-value source: the one capability that the engine asks of its
//! surroundings, and an in-memory source.

use vstd::prelude::*;
use vstd::string::*;
use vstd::hash_map::StringHashMap;

verus! {

/// A key-value source. The engine asks it once for each materialization.
pub trait ReadEnv {
    /// Whether the source may answer `value` when it is asked for `name`. A source
    /// whose answers depend on more than itself admits every answer, and that is what
    /// holds of a source that says nothing else.
    open spec fn answers(&self, name: Seq<char>, value: Option<Seq<char>>) -> bool {
        true
    }

    /// The value found under `var_name`, or `None` where there is none.
    fn read_env(&self, var_name: &String) -> (r: Option<String>)
        ensures
            self.answers(var_name@, r.deep_view()),
    ;
}

/// An in-memory key-value source.
pub struct TestEnv {
    env_vars: StringHashMap<String>,
}

/// Collects the entries of a `TestEnv`.
pub struct TestEnvBuilder {
    env_vars: StringHashMap<String>,
}

/// The entries of a map of strings, values as sequences of characters.
pub open spec fn entries(vars: Map<Seq<char>, String>) -> Map<Seq<char>, Seq<char>> {
    vars.map_values(|v: String| v@)
}

impl View for TestEnv {
    type V = Map<Seq<char>, Seq<char>>;

    closed spec fn view(&self) -> Map<Seq<char>, Seq<char>> {
        entries(self.env_vars@)
    }
}

impl View for TestEnvBuilder {
    type V = Map<Seq<char>, Seq<char>>;

    closed spec fn view(&self) -> Map<Seq<char>, Seq<char>> {
        entries(self.env_vars@)
    }
}

/// What a source with the given entries answers for `name`.
pub open spec fn lookup(vars: Map<Seq<char>, Seq<char>>, name: Seq<char>) -> Option<Seq<char>> {
    if vars.contains_key(name) {
        Some(vars[name])
    } else {
        None
    }
}

impl TestEnv {
    /// Starts a source without entries.
    pub fn builder() -> (r: TestEnvBuilder)
        ensures
            r@ == Map::<Seq<char>, Seq<char>>::empty(),
    {
        let r = TestEnvBuilder { env_vars: StringHashMap::new() };
        assert(r@ =~= Map::<Seq<char>, Seq<char>>::empty());
        r
    }
}

impl ReadEnv for TestEnv {
    /// An in-memory source answers with the entry under the name, and with nothing
    /// else.
    open spec fn answers(&self, name: Seq<char>, value: Option<Seq<char>>) -> bool {
        value == lookup(self@, name)
    }

    fn read_env(&self, var_name: &String) -> (r: Option<String>)
        ensures
            r.deep_view() == lookup(self@, var_name@),
    {
        match self.env_vars.get(var_name.as_str()) {
            Some(value) => Some(value.clone()),
            None => None,
        }
    }
}

impl TestEnvBuilder {
    /// Puts `value` under `name`, in place of what stood there.
    pub fn set(self, name: &str, value: &str) -> (r: TestEnvBuilder)
        ensures
            r@ == self@.insert(name@, value@),
    {
        let mut env_vars = self.env_vars;
        env_vars.insert(String::from_str(name), String::from_str(value));
        let r = TestEnvBuilder { env_vars };
        assert(r@ =~= self@.insert(name@, value@));
        r
    }

    /// Finishes the source, with the entries collected so far.
    pub fn build(self) -> (r: TestEnv)
        ensures
            r@ == self@,
    {
        TestEnv { env_vars: self.env_vars }
    }
}

} // verus!
