//! Argument-list syntax.
//!
//! The grammar this library accepts for a freestanding argument list is
//! small: a source is structurally valid when its parentheses are balanced
//! (no closer before its opener, none left open at the end), and its
//! arguments are the maximal runs of non-whitespace characters, in source
//! order. A structurally invalid source parses to nothing at all.

use vstd::prelude::*;

verus! {

/// Whitespace separating arguments.
pub open spec fn is_space(c: char) -> bool {
    c == ' ' || c == '\t' || c == '\n' || c == '\r'
}

/// Whether the characters of `s` from position `i` on are balanced when
/// `depth` parentheses are already open.
pub open spec fn balanced_from(s: Seq<char>, i: int, depth: int) -> bool
    decreases s.len() - i,
    when 0 <= i <= s.len()
{
    if i == s.len() {
        depth == 0
    } else if s[i] == '(' {
        balanced_from(s, i + 1, depth + 1)
    } else if s[i] == ')' {
        depth > 0 && balanced_from(s, i + 1, depth - 1)
    } else {
        balanced_from(s, i + 1, depth)
    }
}

/// A structurally valid argument-list source: balanced parentheses.
pub open spec fn valid_source(s: Seq<char>) -> bool {
    balanced_from(s, 0, 0)
}

/// The arguments found from position `i` on, with `cur` the (possibly
/// empty) run of argument characters read just before `i`.
pub open spec fn split_from(s: Seq<char>, i: int, cur: Seq<char>) -> Seq<Seq<char>>
    decreases s.len() - i,
    when 0 <= i <= s.len()
{
    if i == s.len() {
        if cur.len() == 0 {
            Seq::empty()
        } else {
            seq![cur]
        }
    } else if is_space(s[i]) {
        if cur.len() == 0 {
            split_from(s, i + 1, Seq::empty())
        } else {
            seq![cur] + split_from(s, i + 1, Seq::empty())
        }
    } else {
        split_from(s, i + 1, cur.push(s[i]))
    }
}

/// The arguments of a source: its maximal runs of non-whitespace
/// characters, in source order.
pub open spec fn arguments(s: Seq<char>) -> Seq<Seq<char>> {
    split_from(s, 0, Seq::empty())
}

/// Whether `c` is argument-separating whitespace.
fn char_is_space(c: char) -> (r: bool)
    ensures
        r == is_space(c),
{
    c == ' ' || c == '\t' || c == '\n' || c == '\r'
}

/// Whether the source's parentheses are balanced.
fn check_balanced(src: &str) -> (r: bool)
    ensures
        r == valid_source(src@),
{
    let n = src.unicode_len();
    let mut depth: usize = 0;
    let mut i: usize = 0;
    while i < n
        invariant
            n == src@.len(),
            0 <= i <= n,
            depth <= i,
            valid_source(src@) == balanced_from(src@, i as int, depth as int),
        decreases n - i,
    {
        let c = src.get_char(i);
        if c == '(' {
            depth = depth + 1;
        } else if c == ')' {
            if depth == 0 {
                return false;
            }
            depth = depth - 1;
        }
        i = i + 1;
    }
    depth == 0
}

/// The arguments' source texts, in source order.
fn collect_arguments(src: &str) -> (args: Vec<String>)
    ensures
        args.deep_view() == arguments(src@),
{
    let n = src.unicode_len();
    let mut args: Vec<String> = Vec::new();
    let mut token_start: Option<usize> = None;
    let mut i: usize = 0;
    proof {
        assert(args.deep_view() =~= Seq::<Seq<char>>::empty());
    }
    while i < n
        invariant
            n == src@.len(),
            0 <= i <= n,
            match token_start {
                Some(st) => st < i && arguments(src@) == args.deep_view() + split_from(
                    src@,
                    i as int,
                    src@.subrange(st as int, i as int),
                ),
                None => arguments(src@) == args.deep_view() + split_from(
                    src@,
                    i as int,
                    Seq::<char>::empty(),
                ),
            },
        decreases n - i,
    {
        let c = src.get_char(i);
        let sp = char_is_space(c);
        match token_start {
            None => {
                if !sp {
                    token_start = Some(i);
                    proof {
                        assert(Seq::<char>::empty().push(src@[i as int]) =~= src@.subrange(
                            i as int,
                            i as int + 1,
                        ));
                    }
                }
            },
            Some(st) => {
                if sp {
                    let ghost cur = src@.subrange(st as int, i as int);
                    let ghost old_args = args.deep_view();
                    let token = src.substring_char(st, i);
                    args.push(token.to_owned());
                    token_start = None;
                    proof {
                        assert(args.deep_view() =~= old_args.push(cur));
                        assert(old_args + (seq![cur] + split_from(
                            src@,
                            i as int + 1,
                            Seq::<char>::empty(),
                        )) =~= args.deep_view() + split_from(src@, i as int + 1, Seq::<char>::empty()));
                    }
                } else {
                    proof {
                        assert(src@.subrange(st as int, i as int).push(src@[i as int])
                            =~= src@.subrange(st as int, i as int + 1));
                    }
                }
            },
        }
        i = i + 1;
    }
    if let Some(st) = token_start {
        let ghost cur = src@.subrange(st as int, n as int);
        let ghost old_args = args.deep_view();
        let token = src.substring_char(st, n);
        args.push(token.to_owned());
        proof {
            assert(args.deep_view() =~= old_args.push(cur));
            assert(old_args + seq![cur] =~= args.deep_view());
        }
    }
    args
}

/// Parse the source as a freestanding argument list: `None` on a
/// structurally invalid source, else the arguments' exact source texts in
/// source order.
pub fn parse_argument_list(src: &str) -> (r: Option<Vec<String>>)
    ensures
        r is Some <==> valid_source(src@),
        r matches Some(args) ==> args.deep_view() == arguments(src@),
{
    if !check_balanced(src) {
        return None;
    }
    Some(collect_arguments(src))
}

} // verus!
