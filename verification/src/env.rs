//! A variable store: an immutable-after-construction set of bindings from
//! variable names to lists of string values (shell variables are lists).
//!
//! The store is modelled as a `Map` from the name's characters to the
//! sequence of the bound values' characters. Two canonical instances exist:
//! a store with no variables bound, and a store standing for the
//! process-global scope.

use std::sync::Arc;
use vstd::prelude::*;

verus! {

/// Relies on `alloc::sync::Arc::clone`: the returned handle refers to the
/// same variable store as `vars`.
#[verifier::external_body]
pub(crate) fn share(vars: &Arc<Environment>) -> (r: Arc<Environment>)
    ensures
        r == *vars,
{
    Arc::clone(vars)
}

/// A binding store from variable names to lists of values.
///
/// A shell variable is bound to a *list* of strings: expanding a reference
/// to it yields one result per element, so a binding may also be an empty
/// list. Later bindings of the same name shadow earlier ones.
pub struct Environment {
    entries: Vec<(String, Vec<String>)>,
}

/// The value bound to `name` by the entries, front entry winning.
pub closed spec fn spec_lookup(entries: Seq<(String, Vec<String>)>, name: Seq<char>) -> Option<
    Seq<Seq<char>>,
>
    decreases entries.len(),
{
    if entries.len() == 0 {
        None
    } else if entries[0].0@ == name {
        Some(entries[0].1.deep_view())
    } else {
        spec_lookup(entries.drop_first(), name)
    }
}

impl View for Environment {
    type V = Map<Seq<char>, Seq<Seq<char>>>;

    closed spec fn view(&self) -> Map<Seq<char>, Seq<Seq<char>>> {
        Map::new(
            |name: Seq<char>| spec_lookup(self.entries@, name) is Some,
            |name: Seq<char>| spec_lookup(self.entries@, name)->Some_0,
        )
    }
}

impl Environment {
    /// A store with no variables bound.
    pub fn new() -> (r: Environment)
        ensures
            r@ == Map::<Seq<char>, Seq<Seq<char>>>::empty(),
    {
        let r = Environment { entries: Vec::new() };
        proof {
            assert(r@ =~= Map::<Seq<char>, Seq<Seq<char>>>::empty());
        }
        r
    }

    /// The store standing for the process-global scope.
    ///
    /// The library itself carries no process-wide mutable state (verified
    /// code holds no globals), so this distinguished instance starts with no
    /// bindings; a caller that owns real global bindings builds a store with
    /// [`Environment::set`] and hands it to the context it constructs.
    pub fn globals() -> (r: Environment)
        ensures
            r@ == Map::<Seq<char>, Seq<Seq<char>>>::empty(),
    {
        Environment::new()
    }

    /// Bind `name` to the list `values`, shadowing any earlier binding.
    pub fn set(&mut self, name: &str, values: Vec<String>)
        ensures
            final(self)@ == old(self)@.insert(name@, values.deep_view()),
    {
        let ghost old_entries = self.entries@;
        self.entries.insert(0, (name.to_owned(), values));
        proof {
            assert(self.entries@.drop_first() =~= old_entries);
            assert(self@ =~= old(self)@.insert(name@, values.deep_view()));
        }
    }

    /// Look the binding for `name` up; `None` when `name` is unbound.
    pub fn get(&self, name: &str) -> (r: Option<&Vec<String>>)
        ensures
            match r {
                Some(values) => self@.contains_key(name@) && values.deep_view() == self@[name@],
                None => !self@.contains_key(name@),
            },
    {
        let key: String = name.to_owned();
        let n = self.entries.len();
        proof {
            assert(self.entries@.subrange(0, n as int) =~= self.entries@);
        }
        let mut i: usize = 0;
        while i < n
            invariant
                0 <= i <= n == self.entries@.len(),
                key@ == name@,
                spec_lookup(self.entries@, name@) == spec_lookup(
                    self.entries@.subrange(i as int, n as int),
                    name@,
                ),
            decreases n - i,
        {
            let entry = &self.entries[i];
            if entry.0.eq(&key) {
                proof {
                    assert(self.entries@.subrange(i as int, n as int)[0] == self.entries@[i as int]);
                }
                return Some(&entry.1);
            }
            proof {
                assert(self.entries@.subrange(i as int, n as int).drop_first() =~= self.entries@
                    .subrange(i as int + 1, n as int));
            }
            i = i + 1;
        }
        proof {
            assert(self.entries@.subrange(n as int, n as int) =~= Seq::<(
                String,
                Vec<String>,
            )>::empty());
        }
        None
    }
}

} // verus!
