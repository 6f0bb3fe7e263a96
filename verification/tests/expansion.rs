use argexpand::ast::parse_argument_list;
use argexpand::env::Environment;
use argexpand::expand::expand_string;
use argexpand::expand::ExpandFlags;
use argexpand::expand::ExpandResultCode;
use argexpand::operation_context::CancelChecker;
use argexpand::operation_context::OperationContext;
use argexpand::operation_context::EXPANSION_LIMIT_BACKGROUND;
use argexpand::operation_context::EXPANSION_LIMIT_DEFAULT;
use argexpand::parser::Parser;
use std::sync::atomic::AtomicBool;
use std::sync::Arc;

fn plain_flags() -> ExpandFlags {
    ExpandFlags { skip_variables: false, fail_on_unset: false }
}

fn strict_flags() -> ExpandFlags {
    ExpandFlags { skip_variables: false, fail_on_unset: true }
}

fn ctx_with(pairs: &[(&str, &[&str])], limit: usize) -> OperationContext<'static> {
    let mut env = Environment::new();
    for (name, values) in pairs {
        env.set(name, values.iter().map(|v| v.to_string()).collect());
    }
    OperationContext::new(Arc::new(env), limit)
}

#[test]
fn two_literal_arguments_expand_to_themselves() {
    let ctx = OperationContext::empty();
    let result = Parser::expand_argument_list("a b", plain_flags(), &ctx);
    assert_eq!(result, vec!["a".to_string(), "b".to_string()]);
}

#[test]
fn invalid_source_yields_nothing_regardless_of_context() {
    let empty: Vec<String> = vec![];
    let ctx = OperationContext::empty();
    assert_eq!(Parser::expand_argument_list(")", plain_flags(), &ctx), empty);
    assert_eq!(Parser::expand_argument_list(")", strict_flags(), &ctx), empty);
    let globals = OperationContext::globals();
    assert_eq!(Parser::expand_argument_list(")", plain_flags(), &globals), empty);
    assert_eq!(Parser::expand_argument_list("a (b", plain_flags(), &ctx), empty);
    assert_eq!(Parser::expand_argument_list("a ) b", plain_flags(), &ctx), empty);
}

#[test]
fn source_without_arguments_yields_nothing() {
    let ctx = OperationContext::empty();
    let empty: Vec<String> = vec![];
    assert_eq!(Parser::expand_argument_list("", plain_flags(), &ctx), empty);
    assert_eq!(Parser::expand_argument_list(" \t \n ", plain_flags(), &ctx), empty);
}

#[test]
fn unset_variable_fails_in_strict_mode() {
    let ctx = OperationContext::empty();
    let result = Parser::expand_argument_list("$undefined_var x", strict_flags(), &ctx);
    let empty: Vec<String> = vec![];
    assert_eq!(result, empty);
}

#[test]
fn unset_variable_expands_to_nothing_without_strict_mode() {
    let ctx = OperationContext::empty();
    let result = Parser::expand_argument_list("$undefined_var x", plain_flags(), &ctx);
    assert_eq!(result, vec!["x".to_string()]);
}

#[test]
fn failure_keeps_the_results_of_earlier_arguments() {
    let ctx = ctx_with(&[("bound", &["B"])], EXPANSION_LIMIT_DEFAULT);
    let result = Parser::expand_argument_list("a $bound $nope z", strict_flags(), &ctx);
    assert_eq!(result, vec!["a".to_string(), "B".to_string()]);
}

#[test]
fn variable_expands_to_its_whole_list_in_order() {
    let ctx = ctx_with(&[("x", &["1", "2"])], EXPANSION_LIMIT_DEFAULT);
    let result = Parser::expand_argument_list("$x y", plain_flags(), &ctx);
    assert_eq!(result, vec!["1".to_string(), "2".to_string(), "y".to_string()]);
}

#[test]
fn variable_bound_to_empty_list_expands_to_nothing() {
    let ctx = ctx_with(&[("e", &[])], EXPANSION_LIMIT_DEFAULT);
    let result = Parser::expand_argument_list("a $e b", plain_flags(), &ctx);
    assert_eq!(result, vec!["a".to_string(), "b".to_string()]);
}

#[test]
fn skip_variables_keeps_the_reference_literal() {
    let ctx = ctx_with(&[("x", &["1"])], EXPANSION_LIMIT_DEFAULT);
    let flags = ExpandFlags { skip_variables: true, fail_on_unset: false };
    let result = Parser::expand_argument_list("$x", flags, &ctx);
    assert_eq!(result, vec!["$x".to_string()]);
}

#[test]
fn dollar_without_a_name_is_literal() {
    let ctx = OperationContext::empty();
    assert_eq!(Parser::expand_argument_list("$", plain_flags(), &ctx), vec!["$".to_string()]);
    assert_eq!(
        Parser::expand_argument_list("$a-b", plain_flags(), &ctx),
        vec!["$a-b".to_string()]
    );
}

#[test]
fn background_limit_curtails_a_large_expansion() {
    let many: Vec<String> = (0..600).map(|i| i.to_string()).collect();
    let mut env = Environment::new();
    env.set("many", many.clone());
    let vars = Arc::new(env);
    let background =
        OperationContext::new(Arc::clone(&vars), EXPANSION_LIMIT_BACKGROUND);
    let foreground = OperationContext::new(vars, EXPANSION_LIMIT_DEFAULT);
    let flags = plain_flags();
    let curtailed = Parser::expand_argument_list("$many", flags, &background);
    let full = Parser::expand_argument_list("$many", flags, &foreground);
    assert_eq!(full, many);
    assert!(curtailed.len() < full.len());
    let empty: Vec<String> = vec![];
    assert_eq!(curtailed, empty);
}

#[test]
fn exhausted_limit_curtails_later_arguments_too() {
    let ctx = ctx_with(&[], 2);
    let result = Parser::expand_argument_list("a b c d", plain_flags(), &ctx);
    assert_eq!(result, vec!["a".to_string(), "b".to_string()]);
}

#[test]
fn cancelled_context_stops_before_the_first_argument() {
    let parser = Parser::new(Arc::new(Environment::new()));
    let ctx =
        OperationContext::foreground(&parser, CancelChecker::Triggered, EXPANSION_LIMIT_DEFAULT);
    let empty: Vec<String> = vec![];
    assert_eq!(Parser::expand_argument_list("a b", plain_flags(), &ctx), empty);
}

#[test]
fn unset_shared_flag_lets_expansion_run() {
    let parser = Parser::new(Arc::new(Environment::new()));
    let flag = Arc::new(AtomicBool::new(false));
    let checker = CancelChecker::Flag(Arc::clone(&flag));
    let ctx = OperationContext::foreground(&parser, checker, EXPANSION_LIMIT_DEFAULT);
    let result = Parser::expand_argument_list("a b", plain_flags(), &ctx);
    assert_eq!(result, vec!["a".to_string(), "b".to_string()]);
}

#[test]
fn foreground_context_reads_the_interpreter_variables() {
    let mut env = Environment::new();
    env.set("x", vec!["v".to_string()]);
    let parser = Parser::new(Arc::new(env));
    let ctx = OperationContext::foreground(&parser, CancelChecker::Never, EXPANSION_LIMIT_DEFAULT);
    let result = Parser::expand_argument_list("$x", plain_flags(), &ctx);
    assert_eq!(result, vec!["v".to_string()]);
}

#[test]
fn parse_argument_list_splits_on_whitespace() {
    let args = parse_argument_list("  a \t bb  c ").expect("source is valid");
    assert_eq!(args, vec!["a".to_string(), "bb".to_string(), "c".to_string()]);
}

#[test]
fn parse_argument_list_rejects_unbalanced_parens() {
    assert!(parse_argument_list(")").is_none());
    assert!(parse_argument_list("(").is_none());
    assert!(parse_argument_list("a (b c").is_none());
    assert!(parse_argument_list("(a) b").is_some());
}

#[test]
fn expand_string_accumulates_across_calls_under_one_budget() {
    let ctx = ctx_with(&[], 2);
    let flags = plain_flags();
    let mut out: Vec<String> = vec![];
    assert_eq!(expand_string("a".to_string(), &mut out, flags, &ctx), ExpandResultCode::Success);
    assert_eq!(expand_string("b".to_string(), &mut out, flags, &ctx), ExpandResultCode::Success);
    assert_eq!(expand_string("c".to_string(), &mut out, flags, &ctx), ExpandResultCode::Failure);
    assert_eq!(out, vec!["a".to_string(), "b".to_string()]);
}

#[test]
fn expand_string_reports_cancellation_and_leaves_output_alone() {
    let parser = Parser::new(Arc::new(Environment::new()));
    let ctx =
        OperationContext::foreground(&parser, CancelChecker::Triggered, EXPANSION_LIMIT_DEFAULT);
    let mut out: Vec<String> = vec!["kept".to_string()];
    let code = expand_string("a".to_string(), &mut out, plain_flags(), &ctx);
    assert_eq!(code, ExpandResultCode::Cancelled);
    assert_eq!(out, vec!["kept".to_string()]);
}

#[test]
fn default_flags_expand_everything_and_tolerate_unset() {
    let flags = ExpandFlags::default();
    assert!(!flags.skip_variables);
    assert!(!flags.fail_on_unset);
    let ctx = OperationContext::empty();
    assert_eq!(
        Parser::expand_argument_list("$missing ok", flags, &ctx),
        vec!["ok".to_string()]
    );
}
