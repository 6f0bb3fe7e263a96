//! The operation context: a property bag which wraps up the data needed for
//! highlighting, expansion and completion — the interpreter (for foreground
//! work only), the variable store, the expansion result limit, an optional
//! job group, and a cancellation query. Once constructed, a context never
//! changes; it is threaded by reference through a single logical operation.

use crate::env::Environment;
use crate::job_group::JobGroup;
use crate::parser::Parser;
use core::sync::atomic::AtomicBool;
use core::sync::atomic::Ordering;
use std::sync::Arc;
use vstd::prelude::*;

verus! {

/// A helper which always reports that no cancellation is requested.
pub fn no_cancel() -> (r: bool)
    ensures
        r == false,
{
    false
}

/// The default maximum number of results from expansion, for interactive
/// foreground use.
pub const EXPANSION_LIMIT_DEFAULT: usize = 512 * 1024;

/// A smaller result limit for background operations like syntax
/// highlighting, to bound the latency of non-essential work.
pub const EXPANSION_LIMIT_BACKGROUND: usize = 512;

/// A cancellation query: a side-effect-free predicate saying whether the
/// in-progress operation must abort now.
pub enum CancelChecker {
    /// Never requests cancellation.
    Never,
    /// Cancellation was already requested when the checker was built.
    Triggered,
    /// A flag shared with whoever may request cancellation — say, a signal
    /// handler running on another thread. Polling reads its current value,
    /// so to the contracts the answer is undetermined.
    Flag(Arc<AtomicBool>),
}

impl CancelChecker {
    /// Poll the query.
    pub fn check(&self) -> (r: bool)
        ensures
            self is Never ==> r == false,
            self is Triggered ==> r == true,
    {
        match self {
            CancelChecker::Never => no_cancel(),
            CancelChecker::Triggered => true,
            CancelChecker::Flag(flag) => {
                let f: &AtomicBool = &**flag;
                f.load(Ordering::Relaxed)
            },
        }
    }
}

/// A property bag wrapping up the data needed for expansion, completion and
/// highlighting. None of its fields changes identity once it is built; only
/// what the shared handles reach (the variable store's contents, the
/// interpreter's state) may be changed from outside.
pub struct OperationContext<'a> {
    /// The interpreter, when this is a foreground operation; a background
    /// operation carries none, so code that needs a live interpreter cannot
    /// run against a background context. The context only ever reads
    /// through this shared borrow — command substitution, the one path that
    /// would mutate the interpreter, is not run by this library — and the
    /// borrow rules out a second writer statically.
    pub parser: Option<&'a Parser>,
    /// The set of variables.
    pub vars: Arc<Environment>,
    /// The limit on the number of expansion results which may be produced
    /// over one whole call, all arguments together.
    pub expansion_limit: usize,
    /// The job group of the parental job. When set, jobs created by command
    /// substitutions join this group; the constructors here leave it unset.
    pub job_group: Option<Arc<JobGroup>>,
    /// A query which may be polled for cancellation.
    pub cancel_checker: CancelChecker,
}

impl<'a> OperationContext<'a> {
    /// An "empty" context: no variables, no interpreter, the default result
    /// limit, and no cancellation ever signalled.
    pub fn empty() -> (r: OperationContext<'static>)
        ensures
            r.parser is None,
            r.vars@ == Map::<Seq<char>, Seq<Seq<char>>>::empty(),
            r.expansion_limit == EXPANSION_LIMIT_DEFAULT,
            r.job_group is None,
            r.cancel_checker is Never,
    {
        OperationContext::new(Arc::new(Environment::new()), EXPANSION_LIMIT_DEFAULT)
    }

    /// A context over the process-global variables only: no interpreter,
    /// the default result limit, and no cancellation ever signalled.
    pub fn globals() -> (r: OperationContext<'static>)
        ensures
            r.parser is None,
            r.vars@ == Map::<Seq<char>, Seq<Seq<char>>>::empty(),
            r.expansion_limit == EXPANSION_LIMIT_DEFAULT,
            r.job_group is None,
            r.cancel_checker is Never,
    {
        OperationContext::new(Arc::new(Environment::globals()), EXPANSION_LIMIT_DEFAULT)
    }

    /// A foreground context: built from the active interpreter, a
    /// caller-supplied cancellation query and an explicit result limit. The
    /// variable store is the interpreter's own, so it reflects the live
    /// scope.
    pub fn foreground(
        parser: &'a Parser,
        cancel_checker: CancelChecker,
        expansion_limit: usize,
    ) -> (r: OperationContext<'a>)
        ensures
            r.parser == Some(parser),
            r.vars@ == parser@,
            r.expansion_limit == expansion_limit,
            r.job_group is None,
            r.cancel_checker == cancel_checker,
    {
        let vars = parser.get_vars();
        OperationContext { parser: Some(parser), vars, expansion_limit, job_group: None, cancel_checker }
    }

    /// A context from a variable store alone: no interpreter and no
    /// cancellation ever signalled.
    pub fn new(vars: Arc<Environment>, expansion_limit: usize) -> (r: OperationContext<'static>)
        ensures
            r.parser is None,
            r.vars == vars,
            r.expansion_limit == expansion_limit,
            r.job_group is None,
            r.cancel_checker is Never,
    {
        OperationContext {
            parser: None,
            vars,
            expansion_limit,
            job_group: None,
            cancel_checker: CancelChecker::Never,
        }
    }

    /// Whether this context was built in foreground mode, that is, whether
    /// interpreter-dependent expansions are permitted under it.
    pub fn has_parser(&self) -> (r: bool)
        ensures
            r == (self.parser is Some),
    {
        self.parser.is_some()
    }

    /// Poll the cancellation query. No side effects: a context built with
    /// no explicit query never cancels.
    pub fn check_cancel(&self) -> (r: bool)
        ensures
            self.cancel_checker is Never ==> r == false,
            self.cancel_checker is Triggered ==> r == true,
    {
        self.cancel_checker.check()
    }
}

} // verus!
