//! The interpreter. It owns a shared handle to its current variable store
//! and hosts the argument-list expansion entry point.

use crate::ast::arguments;
use crate::ast::valid_source;
use crate::env::Environment;
use crate::expand::expand_string;
use crate::expand::expansion_of;
use crate::expand::ExpandFlags;
use crate::expand::ExpandResultCode;
use crate::operation_context::OperationContext;
use std::sync::Arc;
use vstd::prelude::*;

verus! {

/// The result sequence after the arguments `args` are expanded in order
/// against the variables `vars` under `flags`, starting from the already
/// accumulated results `acc`: expansion stops at the first argument that
/// fails or whose results would push the total past `limit`, keeping what
/// was accumulated before it.
pub open spec fn expand_list_from(
    args: Seq<Seq<char>>,
    vars: Map<Seq<char>, Seq<Seq<char>>>,
    flags: ExpandFlags,
    limit: nat,
    acc: Seq<Seq<char>>,
) -> Seq<Seq<char>>
    decreases args.len(),
{
    if args.len() == 0 {
        acc
    } else {
        match expansion_of(args[0], vars, flags) {
            Some(results) => {
                if acc.len() + results.len() > limit {
                    acc
                } else {
                    expand_list_from(args.drop_first(), vars, flags, limit, acc + results)
                }
            },
            None => acc,
        }
    }
}

/// What expanding a whole argument-list source yields when no cancellation
/// intervenes: nothing for a structurally invalid source, else the fold of
/// its arguments' expansions.
pub open spec fn expanded_arguments(
    src: Seq<char>,
    vars: Map<Seq<char>, Seq<Seq<char>>>,
    flags: ExpandFlags,
    limit: nat,
) -> Seq<Seq<char>> {
    if valid_source(src) {
        expand_list_from(arguments(src), vars, flags, limit, Seq::empty())
    } else {
        Seq::empty()
    }
}

/// The concatenation of the expansions of the first `k` arguments, source
/// order outside, engine order inside each argument.
pub open spec fn prefix_results(
    args: Seq<Seq<char>>,
    k: int,
    vars: Map<Seq<char>, Seq<Seq<char>>>,
    flags: ExpandFlags,
) -> Seq<Seq<char>>
    decreases k,
{
    if k <= 0 {
        Seq::empty()
    } else {
        prefix_results(args, k - 1, vars, flags) + (match expansion_of(args[k - 1], vars, flags) {
            Some(results) => results,
            None => Seq::empty(),
        })
    }
}

/// The first `k` arguments all expand successfully, each within `limit`.
pub open spec fn prefix_ok(
    args: Seq<Seq<char>>,
    k: int,
    vars: Map<Seq<char>, Seq<Seq<char>>>,
    flags: ExpandFlags,
    limit: nat,
) -> bool {
    forall|i: int|
        0 <= i < k ==> (#[trigger] expansion_of(args[i], vars, flags)) is Some && prefix_results(
            args,
            i + 1,
            vars,
            flags,
        ).len() <= limit
}

/// Argument `k` is where expansion stops: its own expansion fails, or its
/// results would push the total past `limit`.
pub open spec fn expansion_fails_at(
    args: Seq<Seq<char>>,
    k: int,
    vars: Map<Seq<char>, Seq<Seq<char>>>,
    flags: ExpandFlags,
    limit: nat,
) -> bool {
    match expansion_of(args[k], vars, flags) {
        Some(results) => prefix_results(args, k, vars, flags).len() + results.len() > limit,
        None => true,
    }
}

/// Folding from the start is the same as folding the arguments left after
/// a prefix that expanded successfully, starting from that prefix's
/// results.
proof fn lemma_expand_list_from_prefix(
    args: Seq<Seq<char>>,
    j: int,
    vars: Map<Seq<char>, Seq<Seq<char>>>,
    flags: ExpandFlags,
    limit: nat,
)
    requires
        0 <= j <= args.len(),
        prefix_ok(args, j, vars, flags, limit),
    ensures
        expand_list_from(args, vars, flags, limit, Seq::empty()) == expand_list_from(
            args.subrange(j, args.len() as int),
            vars,
            flags,
            limit,
            prefix_results(args, j, vars, flags),
        ),
    decreases j,
{
    if j == 0 {
        assert(args.subrange(0, args.len() as int) =~= args);
    } else {
        lemma_expand_list_from_prefix(args, j - 1, vars, flags, limit);
        assert(args.subrange(j - 1, args.len() as int)[0] == args[j - 1]);
        assert(args.subrange(j - 1, args.len() as int).drop_first() =~= args.subrange(
            j,
            args.len() as int,
        ));
        assert(expansion_of(args[j - 1], vars, flags) is Some && prefix_results(
            args,
            j,
            vars,
            flags,
        ).len() <= limit);
    }
}

/// Law: when every argument of the list expands successfully within the
/// limit, the result is the concatenation of all the arguments'
/// expansions — the outer order is the arguments' source order, and each
/// argument's own results keep the order its expansion produced them in.
pub proof fn lemma_all_arguments_expand(
    args: Seq<Seq<char>>,
    vars: Map<Seq<char>, Seq<Seq<char>>>,
    flags: ExpandFlags,
    limit: nat,
)
    requires
        prefix_ok(args, args.len() as int, vars, flags, limit),
    ensures
        expand_list_from(args, vars, flags, limit, Seq::empty()) == prefix_results(
            args,
            args.len() as int,
            vars,
            flags,
        ),
{
    lemma_expand_list_from_prefix(args, args.len() as int, vars, flags, limit);
    assert(args.subrange(args.len() as int, args.len() as int) =~= Seq::<Seq<char>>::empty());
}

/// Law: when the arguments before position `k` expand successfully within
/// the limit and argument `k` is the first to fail — its expansion
/// reports an error, or its results would push the total past the limit —
/// the result is exactly the concatenation of the expansions of the
/// arguments before `k`: nothing of argument `k` or of any later argument
/// appears.
pub proof fn lemma_expansion_stops_at_first_failure(
    args: Seq<Seq<char>>,
    k: int,
    vars: Map<Seq<char>, Seq<Seq<char>>>,
    flags: ExpandFlags,
    limit: nat,
)
    requires
        0 <= k < args.len(),
        prefix_ok(args, k, vars, flags, limit),
        expansion_fails_at(args, k, vars, flags, limit),
    ensures
        expand_list_from(args, vars, flags, limit, Seq::empty()) == prefix_results(
            args,
            k,
            vars,
            flags,
        ),
{
    lemma_expand_list_from_prefix(args, k, vars, flags, limit);
    assert(args.subrange(k, args.len() as int)[0] == args[k]);
}

/// A longer prefix never holds fewer results.
proof fn lemma_prefix_results_len_monotone(
    args: Seq<Seq<char>>,
    k1: int,
    k2: int,
    vars: Map<Seq<char>, Seq<Seq<char>>>,
    flags: ExpandFlags,
)
    requires
        k1 <= k2,
    ensures
        prefix_results(args, k1, vars, flags).len() <= prefix_results(args, k2, vars, flags).len(),
    decreases k2 - k1,
{
    if k1 < k2 {
        lemma_prefix_results_len_monotone(args, k1, k2 - 1, vars, flags);
    }
}

/// Law: a smaller result limit curtails expansion. When every argument
/// expands successfully within the larger limit, but under the smaller
/// limit argument `k` is the first whose results would pass it, the
/// sequence produced under the smaller limit is the prefix accumulated
/// before argument `k` — never longer than the sequence produced under the
/// larger limit.
pub proof fn lemma_limit_curtails_expansion(
    args: Seq<Seq<char>>,
    k: int,
    vars: Map<Seq<char>, Seq<Seq<char>>>,
    flags: ExpandFlags,
    small: nat,
    large: nat,
)
    requires
        0 <= k < args.len(),
        prefix_ok(args, args.len() as int, vars, flags, large),
        prefix_ok(args, k, vars, flags, small),
        prefix_results(args, k + 1, vars, flags).len() > small,
    ensures
        expand_list_from(args, vars, flags, small, Seq::empty()) == prefix_results(
            args,
            k,
            vars,
            flags,
        ),
        expand_list_from(args, vars, flags, small, Seq::empty()).len() <= expand_list_from(
            args,
            vars,
            flags,
            large,
            Seq::empty(),
        ).len(),
{
    assert(expansion_of(args[k], vars, flags) is Some);
    lemma_expansion_stops_at_first_failure(args, k, vars, flags, small);
    lemma_all_arguments_expand(args, vars, flags, large);
    lemma_prefix_results_len_monotone(args, k, args.len() as int, vars, flags);
}

/// An interpreter instance.
///
/// To this library the interpreter is little more than the owner of the
/// live variable scope: a foreground operation context is built from it and
/// reads variables through the handle it exposes.
pub struct Parser {
    vars: Arc<Environment>,
}

impl View for Parser {
    type V = Map<Seq<char>, Seq<Seq<char>>>;

    closed spec fn view(&self) -> Map<Seq<char>, Seq<Seq<char>>> {
        self.vars@
    }
}

impl Parser {
    /// An interpreter over the given variable store.
    pub fn new(vars: Arc<Environment>) -> (r: Parser)
        ensures
            r@ == vars@,
    {
        Parser { vars }
    }

    /// A shared handle to the interpreter's current variable store.
    pub fn get_vars(&self) -> (r: Arc<Environment>)
        ensures
            r@ == self@,
    {
        crate::env::share(&self.vars)
    }

    /// Evaluate `arg_list_src` as a freestanding list of parameters:
    /// tokenize it and perform variable expansion on the tokens, under the
    /// given flags and context. Errors are not reported upward: a source
    /// that does not parse yields an empty sequence, and a list whose
    /// expansion fails or is cancelled partway yields exactly the results
    /// accumulated from the arguments before the failing one.
    pub fn expand_argument_list(
        arg_list_src: &str,
        flags: ExpandFlags,
        ctx: &OperationContext<'_>,
    ) -> (result: Vec<String>)
        ensures
            !valid_source(arg_list_src@) ==> result.deep_view() == Seq::<Seq<char>>::empty(),
            valid_source(arg_list_src@) && arguments(arg_list_src@).len() == 0
                ==> result.deep_view() == Seq::<Seq<char>>::empty(),
            ctx.cancel_checker is Never ==> result.deep_view() == expanded_arguments(
                arg_list_src@,
                ctx.vars@,
                flags,
                ctx.expansion_limit as nat,
            ),
            valid_source(arg_list_src@) ==> exists|j: int|
                0 <= j <= arguments(arg_list_src@).len() && prefix_ok(
                    arguments(arg_list_src@),
                    j,
                    ctx.vars@,
                    flags,
                    ctx.expansion_limit as nat,
                ) && result.deep_view() == prefix_results(
                    arguments(arg_list_src@),
                    j,
                    ctx.vars@,
                    flags,
                ),
    {
        let parsed = crate::ast::parse_argument_list(arg_list_src);
        let args = match parsed {
            Some(args) => args,
            None => {
                let empty_result: Vec<String> = Vec::new();
                proof {
                    assert(empty_result.deep_view() =~= Seq::<Seq<char>>::empty());
                }
                return empty_result;
            },
        };
        let ghost args_dv = args.deep_view();
        let ghost vars = ctx.vars@;
        let ghost limit = ctx.expansion_limit as nat;
        let mut result: Vec<String> = Vec::new();
        let n = args.len();
        let mut idx: usize = 0;
        let mut stopped: bool = false;
        proof {
            assert(result.deep_view() =~= Seq::<Seq<char>>::empty());
        }
        while idx < n && !stopped
            invariant
                n == args@.len(),
                args_dv == args.deep_view(),
                vars == ctx.vars@,
                limit == ctx.expansion_limit as nat,
                0 <= idx <= n,
                result.deep_view() == prefix_results(args_dv, idx as int, vars, flags),
                prefix_ok(args_dv, idx as int, vars, flags, limit),
                stopped ==> (ctx.cancel_checker is Never ==> idx < n && expansion_fails_at(
                    args_dv,
                    idx as int,
                    vars,
                    flags,
                    limit,
                )),
            decreases n - idx, (if stopped { 0int } else { 1int }),
        {
            let arg = args[idx].clone();
            proof {
                assert(arg@ == args_dv[idx as int]);
            }
            let code = expand_string(arg, &mut result, flags, ctx);
            if code == ExpandResultCode::Success {
                proof {
                    let results = expansion_of(args_dv[idx as int], vars, flags)->Some_0;
                    assert(prefix_results(args_dv, idx as int + 1, vars, flags) == prefix_results(
                        args_dv,
                        idx as int,
                        vars,
                        flags,
                    ) + results);
                }
                idx = idx + 1;
            } else {
                stopped = true;
            }
        }
        proof {
            if ctx.cancel_checker is Never {
                if stopped {
                    lemma_expansion_stops_at_first_failure(args_dv, idx as int, vars, flags, limit);
                } else {
                    lemma_all_arguments_expand(args_dv, vars, flags, limit);
                }
            }
        }
        result
    }
}

} // verus!
