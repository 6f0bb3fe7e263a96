//! The expansion engine for a single argument.
//!
//! An argument of the form `$name` is a variable reference: it expands to
//! the list of values bound to `name`, one result per element, in the
//! store's order. A reference to an unset variable expands to nothing, or
//! fails when the flags say so. Every other argument is literal and
//! expands to itself. The engine polls the context's cancellation query
//! once on entry, and enforces the context's result limit against the
//! whole accumulated result sequence, so one budget spans all arguments of
//! a call.

use crate::operation_context::OperationContext;
use vstd::prelude::*;

verus! {

/// Configuration of an expansion: which expansion kinds run, and how a
/// reference to an unset variable is treated.
#[derive(Clone, Copy)]
pub struct ExpandFlags {
    /// Keep variable references as literal text instead of expanding them.
    pub skip_variables: bool,
    /// Report an error for a reference to an unset variable instead of
    /// expanding it to nothing.
    pub fail_on_unset: bool,
}

impl Default for ExpandFlags {
    /// Expand everything; an unset variable expands to nothing.
    fn default() -> (r: ExpandFlags)
        ensures
            r.skip_variables == false,
            r.fail_on_unset == false,
    {
        ExpandFlags { skip_variables: false, fail_on_unset: false }
    }
}

/// The status of one argument's expansion.
#[derive(Clone, Copy, Debug, PartialEq, Eq, Structural)]
pub enum ExpandResultCode {
    /// The expansion appended its results.
    Success,
    /// The expansion failed: a reference to an unset variable under strict
    /// flags, or a result count that would pass the context's limit.
    Failure,
    /// The context's cancellation query asked the operation to abort.
    Cancelled,
}

/// A character a variable name is made of: a letter, a digit or an
/// underscore.
pub open spec fn is_word_char(c: char) -> bool {
    ('a' <= c && c <= 'z') || ('A' <= c && c <= 'Z') || ('0' <= c && c <= '9') || c == '_'
}

/// A variable reference: `$` followed by one or more name characters.
pub open spec fn is_var_ref(arg: Seq<char>) -> bool {
    arg.len() >= 2 && arg[0] == '$' && (forall|k: int|
        1 <= k < arg.len() ==> is_word_char(#[trigger] arg[k]))
}

/// What one argument expands to against the variables `vars` under
/// `flags`: `None` when the expansion fails (a reference to an unset
/// variable under strict flags), else the produced results in order.
pub open spec fn expansion_of(
    arg: Seq<char>,
    vars: Map<Seq<char>, Seq<Seq<char>>>,
    flags: ExpandFlags,
) -> Option<Seq<Seq<char>>> {
    if !flags.skip_variables && is_var_ref(arg) {
        let name = arg.subrange(1, arg.len() as int);
        if vars.contains_key(name) {
            Some(vars[name])
        } else if flags.fail_on_unset {
            None
        } else {
            Some(Seq::empty())
        }
    } else {
        Some(seq![arg])
    }
}

/// Whether `c` can stand in a variable name.
fn check_word_char(c: char) -> (r: bool)
    ensures
        r == is_word_char(c),
{
    ('a' <= c && c <= 'z') || ('A' <= c && c <= 'Z') || ('0' <= c && c <= '9') || c == '_'
}

/// Whether the argument is a variable reference.
fn check_var_ref(arg: &str) -> (r: bool)
    ensures
        r == is_var_ref(arg@),
{
    let n = arg.unicode_len();
    if n < 2 {
        return false;
    }
    if arg.get_char(0) != '$' {
        return false;
    }
    let mut k: usize = 1;
    while k < n
        invariant
            n == arg@.len(),
            1 <= k <= n,
            forall|t: int| 1 <= t < k ==> is_word_char(#[trigger] arg@[t]),
        decreases n - k,
    {
        if !check_word_char(arg.get_char(k)) {
            return false;
        }
        k = k + 1;
    }
    true
}

/// Copies of the values, in order.
fn clone_values(values: &Vec<String>) -> (r: Vec<String>)
    ensures
        r.deep_view() == values.deep_view(),
{
    let mut r: Vec<String> = Vec::new();
    let n = values.len();
    let mut i: usize = 0;
    while i < n
        invariant
            n == values@.len(),
            0 <= i <= n,
            r@.len() == i,
            forall|j: int| 0 <= j < i ==> (#[trigger] r@[j])@ == values@[j]@,
        decreases n - i,
    {
        r.push(values[i].clone());
        i = i + 1;
    }
    proof {
        assert(r.deep_view() =~= values.deep_view());
    }
    r
}

/// Expand one argument, appending its results to `out`.
///
/// The cancellation query is polled once, on entry. The context's result
/// limit is enforced against everything already accumulated in `out`
/// together with what this argument produces. On failure or cancellation,
/// `out` is left exactly as it was: an argument's results appear all
/// together or not at all.
pub fn expand_string(
    input: String,
    out: &mut Vec<String>,
    flags: ExpandFlags,
    ctx: &OperationContext<'_>,
) -> (r: ExpandResultCode)
    ensures
        ctx.cancel_checker is Never ==> !(r is Cancelled),
        ctx.cancel_checker is Triggered ==> r is Cancelled,
        r is Cancelled ==> final(out)@ == old(out)@,
        !(r is Cancelled) ==> match expansion_of(input@, ctx.vars@, flags) {
            Some(results) => {
                if old(out)@.len() + results.len() <= ctx.expansion_limit {
                    &&& r is Success
                    &&& final(out).deep_view() == old(out).deep_view() + results
                } else {
                    &&& r is Failure
                    &&& final(out)@ == old(out)@
                }
            },
            None => r is Failure && final(out)@ == old(out)@,
        },
{
    if ctx.check_cancel() {
        return ExpandResultCode::Cancelled;
    }
    let mut produced: Vec<String>;
    if !flags.skip_variables && check_var_ref(input.as_str()) {
        let n = input.as_str().unicode_len();
        let name = input.as_str().substring_char(1, n);
        match (&*ctx.vars).get(name) {
            Some(values) => {
                produced = clone_values(values);
            },
            None => {
                if flags.fail_on_unset {
                    return ExpandResultCode::Failure;
                }
                produced = Vec::new();
            },
        }
    } else {
        produced = Vec::new();
        produced.push(input);
        proof {
            assert(produced.deep_view() =~= seq![input@]);
        }
    }
    if produced.len() > ctx.expansion_limit || out.len() > ctx.expansion_limit - produced.len() {
        return ExpandResultCode::Failure;
    }
    let ghost produced_dv = produced.deep_view();
    let ghost out_before = out.deep_view();
    out.append(&mut produced);
    proof {
        assert(out.deep_view() =~= out_before + produced_dv);
    }
    ExpandResultCode::Success
}

} // verus!
