//! A set of environment variables, as the buildpack reads them.
use vstd::prelude::*;
use crate::text::{str_chars, chars_equal, str_to_string};

verus! {

/// Environment variables: names and values. A name set twice keeps the last value.
#[derive(Debug, Clone)]
pub struct Env {
    vars: Vec<(String, String)>,
}

/// The value of `name` among the pairs: that of the last pair with this name.
pub open spec fn lookup(vars: Seq<(String, String)>, name: Seq<char>) -> Option<Seq<char>>
    decreases vars.len(),
{
    if vars.len() == 0 {
        None
    } else if vars.last().0@ == name {
        Some(vars.last().1@)
    } else {
        lookup(vars.drop_last(), name)
    }
}

impl Env {
    /// The value of a variable in this environment.
    pub closed spec fn value(&self, name: Seq<char>) -> Option<Seq<char>> {
        lookup(self.vars@, name)
    }

    /// An environment without variables.
    pub fn new() -> (r: Self)
        ensures
            forall|name: Seq<char>| r.value(name) is None,
    {
        Env { vars: Vec::new() }
    }

    /// Sets `name` to `value`.
    pub fn insert(&mut self, name: &str, value: &str)
        ensures
            final(self).value(name@) == Some(value@),
            forall|other: Seq<char>| other != name@ ==> final(self).value(other) == old(self).value(other),
    {
        let ghost before = self.vars@;
        self.vars.push((str_to_string(name), str_to_string(value)));
        assert(self.vars@.drop_last() == before);
    }

    /// The value of `name`, if it is set.
    pub fn get(&self, name: &str) -> (r: Option<String>)
        ensures
            match r {
                Some(v) => self.value(name@) == Some(v@),
                None => self.value(name@) is None,
            },
    {
        let n = str_chars(name);
        let mut i = self.vars.len();
        assert(self.vars@.take(i as int) =~= self.vars@);
        while i > 0
            invariant
                i <= self.vars@.len(),
                n@ == name@,
                lookup(self.vars@, name@) == lookup(self.vars@.take(i as int), name@),
            decreases i,
        {
            assert(self.vars@.take(i as int).drop_last() =~= self.vars@.take(i - 1));
            assert(self.vars@.take(i as int).last() == self.vars@[i - 1]);
            let k = str_chars(self.vars[i - 1].0.as_str());
            if chars_equal(&k, &n) {
                return Some(self.vars[i - 1].1.clone());
            }
            i -= 1;
        }
        None
    }
}

} // verus!
