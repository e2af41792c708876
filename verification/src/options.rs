//! The options bag handed in by the host, and the lookups the connector
//! performs on it: an optional setting with a default, and a required one
//! whose absence is a `MissingOption` failure naming the option.

use vstd::prelude::*;
use vstd::string::StringExecFns;

use crate::error::{ErrorV, FdwError};

verus! {

/// First match wins: the value of the first entry whose key is `name`.
pub open spec fn spec_lookup(entries: Seq<(Seq<char>, Seq<char>)>, name: Seq<char>) -> Option<
    Seq<char>,
>
    decreases entries.len(),
{
    if entries.len() == 0 {
        None
    } else if entries[0].0 == name {
        Some(entries[0].1)
    } else {
        spec_lookup(entries.drop_first(), name)
    }
}

/// The looked-up value, or `default` where the key is absent.
pub open spec fn spec_lookup_or(
    entries: Seq<(Seq<char>, Seq<char>)>,
    name: Seq<char>,
    default: Seq<char>,
) -> Seq<char> {
    match spec_lookup(entries, name) {
        Some(v) => v,
        None => default,
    }
}

/// A bag of named textual settings, looked up by key.
#[derive(Debug, Clone)]
pub struct Options {
    pub entries: Vec<(String, String)>,
}

impl View for Options {
    type V = Seq<(Seq<char>, Seq<char>)>;

    open spec fn view(&self) -> Seq<(Seq<char>, Seq<char>)> {
        self.entries@.map_values(|e: (String, String)| (e.0@, e.1@))
    }
}

impl Options {
    /// An empty bag.
    pub fn new() -> (r: Options)
        ensures
            r@ == Seq::<(Seq<char>, Seq<char>)>::empty(),
    {
        let r = Options { entries: Vec::new() };
        proof {
            assert(r@ =~= Seq::<(Seq<char>, Seq<char>)>::empty());
        }
        r
    }

    /// Append one `name = value` entry.
    pub fn set(&mut self, name: &str, value: &str)
        ensures
            final(self)@ == old(self)@.push((name@, value@)),
    {
        let ghost prev = self@;
        self.entries.push((name.to_owned(), value.to_owned()));
        proof {
            assert(self@ =~= prev.push((name@, value@)));
        }
    }

    /// The value stored under `name`, if any.
    pub fn get(&self, name: &str) -> (r: Option<String>)
        ensures
            match r {
                Some(v) => spec_lookup(self@, name@) == Some(v@),
                None => spec_lookup(self@, name@) is None,
            },
    {
        let key = name.to_owned();
        let mut i: usize = 0;
        proof {
            assert(self@.skip(0) =~= self@);
        }
        while i < self.entries.len()
            invariant
                i <= self.entries@.len(),
                key@ == name@,
                spec_lookup(self@, name@) == spec_lookup(self@.skip(i as int), name@),
            decreases self.entries@.len() - i,
        {
            if self.entries[i].0 == key {
                proof {
                    assert(self@.skip(i as int)[0] == self@[i as int]);
                }
                return Some(self.entries[i].1.clone());
            }
            proof {
                assert(self@.skip(i as int).drop_first() =~= self@.skip(i as int + 1));
                assert(self@.skip(i as int)[0] == self@[i as int]);
            }
            i += 1;
        }
        proof {
            assert(self@.skip(i as int) =~= Seq::<(Seq<char>, Seq<char>)>::empty());
        }
        None
    }

    /// The value stored under `name`, or `default` where the option is
    /// absent.
    pub fn require_or(&self, name: &str, default: &str) -> (r: String)
        ensures
            r@ == spec_lookup_or(self@, name@, default@),
    {
        match self.get(name) {
            Some(v) => v,
            None => default.to_owned(),
        }
    }

    /// The value stored under `name`, or a `MissingOption` failure naming
    /// the option.
    pub fn require(&self, name: &str) -> (r: Result<String, FdwError>)
        ensures
            match r {
                Ok(v) => spec_lookup(self@, name@) == Some(v@),
                Err(e) => spec_lookup(self@, name@) is None && e@ == ErrorV::MissingOption(
                    name@,
                ),
            },
    {
        match self.get(name) {
            Some(v) => Ok(v),
            None => Err(FdwError::MissingOption(name.to_owned())),
        }
    }
}

} // verus!
