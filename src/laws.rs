use vstd::prelude::*;

use crate::cli::{
    default_view, is_help_flag, is_version_flag, outcome_view, parse_args, parse_from_index, Cli,
    CliView, ParseError, ParseErrorView, DEFAULT_CONFIG_PATH,
};
use crate::log_level::{lemma_level_round_trip, level_name, level_of_token, LogLevel};
use crate::text::is_option_like;

verus! {

/// The option names are told apart from one another.
proof fn lemma_option_names_distinct()
    ensures
        !is_help_flag("--log-level"@),
        !is_version_flag("--log-level"@),
        !is_help_flag("--config"@),
        !is_version_flag("--config"@),
        "--log-level"@ != "--config"@,
        !is_help_flag("--version"@),
        is_version_flag("--version"@),
{
    reveal_strlit("--help");
    reveal_strlit("-h");
    reveal_strlit("--version");
    reveal_strlit("-V");
    reveal_strlit("--log-level");
    reveal_strlit("--config");
    assert("--help"@.len() == 6);
    assert("-h"@.len() == 2);
    assert("--version"@.len() == 9);
    assert("-V"@.len() == 2);
    assert("--log-level"@.len() == 11);
    assert("--config"@.len() == 8);
}

/// No canonical level token has the shape of an option.
proof fn lemma_level_token_is_value(t: Seq<char>)
    requires
        level_of_token(t) is Some,
    ensures
        !is_option_like(t),
{
    reveal_strlit("debug");
    reveal_strlit("info");
    reveal_strlit("warn");
    reveal_strlit("error");
}

/// An argument list with nothing beyond the program name parses to the
/// default configuration: level info and the default config path.
pub proof fn lemma_no_options_gives_defaults(args: Seq<Seq<char>>)
    requires
        args.len() <= 1,
    ensures
        parse_args(args) == Ok::<CliView, ParseErrorView>(
            CliView { log_level: LogLevel::Info, config: DEFAULT_CONFIG_PATH@ },
        ),
{
}

/// `--log-level t` with a canonical token `t` sets exactly the level that `t`
/// names, leaves the path at its default, and that level's token is `t` again.
pub proof fn lemma_log_level_option(prog: Seq<char>, t: Seq<char>)
    requires
        level_of_token(t) is Some,
    ensures
        parse_args(seq![prog, "--log-level"@, t]) == Ok::<CliView, ParseErrorView>(
            CliView { log_level: level_of_token(t)->0, config: DEFAULT_CONFIG_PATH@ },
        ),
        level_name(level_of_token(t)->0) == t,
{
    let args = seq![prog, "--log-level"@, t];
    lemma_option_names_distinct();
    lemma_level_token_is_value(t);
    lemma_level_round_trip(level_of_token(t)->0, t);
    assert(args[1] == "--log-level"@);
    assert(args[2] == t);
    let next = CliView { log_level: level_of_token(t)->0, config: default_view().config };
    assert(parse_from_index(args, 3, next) == Ok::<CliView, ParseErrorView>(next));
}

/// `--log-level v` with a value `v` that is no canonical token fails with
/// an invalid-value error naming the option and `v`.
pub proof fn lemma_invalid_log_level(prog: Seq<char>, v: Seq<char>)
    requires
        !is_option_like(v),
        level_of_token(v) is None,
    ensures
        parse_args(seq![prog, "--log-level"@, v]) == Err::<CliView, ParseErrorView>(
            ParseErrorView::InvalidValue { flag: "--log-level"@, value: v },
        ),
{
    let args = seq![prog, "--log-level"@, v];
    lemma_option_names_distinct();
    assert(args[1] == "--log-level"@);
    assert(args[2] == v);
}

/// `--config p` with any value `p` sets the path to `p` verbatim and leaves
/// the level at info.
pub proof fn lemma_config_option(prog: Seq<char>, p: Seq<char>)
    requires
        !is_option_like(p),
    ensures
        parse_args(seq![prog, "--config"@, p]) == Ok::<CliView, ParseErrorView>(
            CliView { log_level: LogLevel::Info, config: p },
        ),
{
    let args = seq![prog, "--config"@, p];
    lemma_option_names_distinct();
    assert(args[1] == "--config"@);
    assert(args[2] == p);
    let next = CliView { log_level: LogLevel::Info, config: p };
    assert(parse_from_index(args, 3, next) == Ok::<CliView, ParseErrorView>(next));
}

/// The two options are independent: given together, in either order, each
/// sets its own field to the value given.
pub proof fn lemma_options_commute(prog: Seq<char>, t: Seq<char>, p: Seq<char>)
    requires
        level_of_token(t) is Some,
        !is_option_like(p),
    ensures
        parse_args(seq![prog, "--log-level"@, t, "--config"@, p]) == Ok::<
            CliView,
            ParseErrorView,
        >(CliView { log_level: level_of_token(t)->0, config: p }),
        parse_args(seq![prog, "--config"@, p, "--log-level"@, t]) == Ok::<
            CliView,
            ParseErrorView,
        >(CliView { log_level: level_of_token(t)->0, config: p }),
{
    let l = level_of_token(t)->0;
    let both = CliView { log_level: l, config: p };
    lemma_option_names_distinct();
    lemma_level_token_is_value(t);

    let a = seq![prog, "--log-level"@, t, "--config"@, p];
    assert(a[1] == "--log-level"@ && a[2] == t && a[3] == "--config"@ && a[4] == p);
    assert(parse_from_index(a, 5, both) == Ok::<CliView, ParseErrorView>(both));
    let mid = CliView { log_level: l, config: default_view().config };
    assert(parse_from_index(a, 3, mid) == Ok::<CliView, ParseErrorView>(both));

    let b = seq![prog, "--config"@, p, "--log-level"@, t];
    assert(b[1] == "--config"@ && b[2] == p && b[3] == "--log-level"@ && b[4] == t);
    assert(parse_from_index(b, 5, both) == Ok::<CliView, ParseErrorView>(both));
    let mid2 = CliView { log_level: LogLevel::Info, config: p };
    assert(parse_from_index(b, 3, mid2) == Ok::<CliView, ParseErrorView>(both));
}

/// A version request right after the program name ends parsing with the
/// display-version outcome, whatever follows it.
pub proof fn lemma_version_request(prog: Seq<char>, rest: Seq<Seq<char>>)
    ensures
        parse_args(seq![prog, "--version"@] + rest) == Err::<CliView, ParseErrorView>(
            ParseErrorView::DisplayVersion,
        ),
{
    let args = seq![prog, "--version"@] + rest;
    lemma_option_names_distinct();
    assert(args[1] == "--version"@);
}

/// Parsing keeps no state between calls: two parses of the same argument
/// list give the same outcome, field for field.
pub proof fn lemma_parse_is_deterministic(
    a1: Seq<Seq<char>>,
    a2: Seq<Seq<char>>,
    r1: Result<Cli, ParseError>,
    r2: Result<Cli, ParseError>,
)
    requires
        a1 == a2,
        outcome_view(r1) == parse_args(a1),
        outcome_view(r2) == parse_args(a2),
    ensures
        r1 is Ok <==> r2 is Ok,
        r1 is Ok ==> r1->Ok_0.log_level == r2->Ok_0.log_level && r1->Ok_0.config@
            == r2->Ok_0.config@,
        r1 is Err ==> r1->Err_0@ == r2->Err_0@,
{
}

} // verus!
