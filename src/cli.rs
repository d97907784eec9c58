use vstd::prelude::*;

use crate::log_level::{level_name, level_of_token, LogLevel};
use crate::text::{is_option_like, option_like, text_eq};

verus! {

/// Where the configuration file is looked for when `--config` is not given.
pub const DEFAULT_CONFIG_PATH: &'static str = "/etc/flockd/config.toml";

/// The validated configuration of one invocation.
#[derive(Debug)]
pub struct Cli {
    pub log_level: LogLevel,
    /// Path of the configuration file, taken verbatim; never opened here.
    pub config: String,
}

/// What a `Cli` holds, with its path as text.
pub struct CliView {
    pub log_level: LogLevel,
    pub config: Seq<char>,
}

impl View for Cli {
    type V = CliView;

    open spec fn view(&self) -> CliView {
        CliView { log_level: self.log_level, config: self.config@ }
    }
}

/// Why parsing did not produce a configuration. The first three are
/// validation failures; the last two are requests to show text and stop.
#[derive(Debug)]
pub enum ParseError {
    /// A token that is neither a known option nor the value of one.
    UnrecognizedArgument { token: String },
    /// An option that takes a value was last, or followed by another option.
    MissingValue { flag: String },
    /// An option's value lies outside its allowed set.
    InvalidValue { flag: String, value: String },
    DisplayVersion,
    DisplayHelp,
}

/// The class of a `ParseError`, without the tokens it names.
#[derive(Debug, Clone, Copy, PartialEq, Eq, Structural)]
pub enum ErrorKind {
    UnrecognizedArgument,
    MissingValue,
    InvalidValue,
    DisplayVersion,
    DisplayHelp,
}

/// What a `ParseError` holds, with its strings as text.
pub enum ParseErrorView {
    UnrecognizedArgument { token: Seq<char> },
    MissingValue { flag: Seq<char> },
    InvalidValue { flag: Seq<char>, value: Seq<char> },
    DisplayVersion,
    DisplayHelp,
}

impl View for ParseError {
    type V = ParseErrorView;

    open spec fn view(&self) -> ParseErrorView {
        match self {
            ParseError::UnrecognizedArgument { token } => ParseErrorView::UnrecognizedArgument {
                token: token@,
            },
            ParseError::MissingValue { flag } => ParseErrorView::MissingValue { flag: flag@ },
            ParseError::InvalidValue { flag, value } => ParseErrorView::InvalidValue {
                flag: flag@,
                value: value@,
            },
            ParseError::DisplayVersion => ParseErrorView::DisplayVersion,
            ParseError::DisplayHelp => ParseErrorView::DisplayHelp,
        }
    }
}

/// The class of an error outcome.
pub open spec fn kind_of(e: ParseErrorView) -> ErrorKind {
    match e {
        ParseErrorView::UnrecognizedArgument { .. } => ErrorKind::UnrecognizedArgument,
        ParseErrorView::MissingValue { .. } => ErrorKind::MissingValue,
        ParseErrorView::InvalidValue { .. } => ErrorKind::InvalidValue,
        ParseErrorView::DisplayVersion => ErrorKind::DisplayVersion,
        ParseErrorView::DisplayHelp => ErrorKind::DisplayHelp,
    }
}

/// Help and version requests end the process successfully; the other kinds
/// are failures.
pub open spec fn is_display_kind(k: ErrorKind) -> bool {
    k == ErrorKind::DisplayVersion || k == ErrorKind::DisplayHelp
}

/// The usage text shown for `--help`.
pub const HELP_TEXT: &'static str = "Flock device agent\n\nUsage: flockd [OPTIONS]\n\nOptions:\n      --log-level <LOG_LEVEL>  [default: info] [possible values: debug, info, warn, error]\n      --config <CONFIG>        [default: /etc/flockd/config.toml]\n  -h, --help                   Print help\n  -V, --version                Print version";

/// The text shown for an error: the usage text, the program name and
/// version, or a one-line account of the failure naming the tokens at fault.
pub open spec fn error_message(e: ParseErrorView, version: Seq<char>) -> Seq<char> {
    match e {
        ParseErrorView::UnrecognizedArgument { token } => "error: unexpected argument '"@ + token
            + "' found"@,
        ParseErrorView::MissingValue { flag } => "error: a value is required for '"@ + flag
            + "' but none was supplied"@,
        ParseErrorView::InvalidValue { flag, value } => "error: invalid value '"@ + value
            + "' for '"@ + flag + "'"@,
        ParseErrorView::DisplayVersion => "flockd "@ + version,
        ParseErrorView::DisplayHelp => HELP_TEXT@,
    }
}

/// The three lines printed at startup after a successful parse.
pub open spec fn banner_text(c: CliView, version: Seq<char>) -> Seq<char> {
    "flockd v"@ + version + "\nlog_level="@ + level_name(c.log_level) + "\nconfig="@ + c.config
}

/// The configuration when no option is given.
pub open spec fn default_view() -> CliView {
    CliView { log_level: LogLevel::Info, config: DEFAULT_CONFIG_PATH@ }
}

/// The long and short forms of the help request.
pub open spec fn is_help_flag(t: Seq<char>) -> bool {
    t == "--help"@ || t == "-h"@
}

/// The long and short forms of the version request.
pub open spec fn is_version_flag(t: Seq<char>) -> bool {
    t == "--version"@ || t == "-V"@
}

/// Whether the token after position `i` can serve as the value of the
/// option at `i`.
pub open spec fn has_value(args: Seq<Seq<char>>, i: int) -> bool {
    i + 1 < args.len() && !is_option_like(args[i + 1])
}

/// The outcome of reading `args` from position `i` on, with `cur` the
/// configuration built so far. Tokens are read left to right and the first
/// display request or failure met ends the reading; an option given twice
/// keeps its last value.
pub open spec fn parse_from_index(args: Seq<Seq<char>>, i: int, cur: CliView) -> Result<
    CliView,
    ParseErrorView,
>
    decreases args.len() - i,
{
    if i < 0 || i >= args.len() {
        Ok(cur)
    } else {
        let t = args[i];
        if is_help_flag(t) {
            Err(ParseErrorView::DisplayHelp)
        } else if is_version_flag(t) {
            Err(ParseErrorView::DisplayVersion)
        } else if t == "--log-level"@ {
            if !has_value(args, i) {
                Err(ParseErrorView::MissingValue { flag: t })
            } else {
                match level_of_token(args[i + 1]) {
                    Some(l) => parse_from_index(
                        args,
                        i + 2,
                        CliView { log_level: l, config: cur.config },
                    ),
                    None => Err(ParseErrorView::InvalidValue { flag: t, value: args[i + 1] }),
                }
            }
        } else if t == "--config"@ {
            if !has_value(args, i) {
                Err(ParseErrorView::MissingValue { flag: t })
            } else {
                parse_from_index(
                    args,
                    i + 2,
                    CliView { log_level: cur.log_level, config: args[i + 1] },
                )
            }
        } else {
            Err(ParseErrorView::UnrecognizedArgument { token: t })
        }
    }
}

/// The outcome of parsing a whole argument list; its first token is the
/// program name and is not read.
pub open spec fn parse_args(args: Seq<Seq<char>>) -> Result<CliView, ParseErrorView> {
    parse_from_index(args, 1, default_view())
}

/// The view of a parse result.
pub open spec fn outcome_view(r: Result<Cli, ParseError>) -> Result<CliView, ParseErrorView> {
    match r {
        Ok(c) => Ok(c@),
        Err(e) => Err(e@),
    }
}

impl ParseError {
    /// The class of this error.
    pub fn kind(&self) -> (r: ErrorKind)
        ensures
            r == kind_of(self@),
    {
        match self {
            ParseError::UnrecognizedArgument { .. } => ErrorKind::UnrecognizedArgument,
            ParseError::MissingValue { .. } => ErrorKind::MissingValue,
            ParseError::InvalidValue { .. } => ErrorKind::InvalidValue,
            ParseError::DisplayVersion => ErrorKind::DisplayVersion,
            ParseError::DisplayHelp => ErrorKind::DisplayHelp,
        }
    }

    /// Whether this is a help or version request rather than a failure.
    pub fn is_display_request(&self) -> (r: bool)
        ensures
            r == is_display_kind(kind_of(self@)),
    {
        match self {
            ParseError::DisplayVersion | ParseError::DisplayHelp => true,
            _ => false,
        }
    }

    /// The process exit status that goes with this error: 0 for a display
    /// request, 2 for a failure.
    pub fn exit_code(&self) -> (r: i32)
        ensures
            r == (if is_display_kind(kind_of(self@)) {
                0i32
            } else {
                2i32
            }),
    {
        if self.is_display_request() {
            0
        } else {
            2
        }
    }

    /// The text to show for this error; `version` is the program's version.
    pub fn message(&self, version: &str) -> (r: String)
        ensures
            r@ == error_message(self@, version@),
    {
        match self {
            ParseError::UnrecognizedArgument { token } => {
                let mut s = "error: unexpected argument '".to_owned();
                s.append(token.as_str());
                s.append("' found");
                s
            },
            ParseError::MissingValue { flag } => {
                let mut s = "error: a value is required for '".to_owned();
                s.append(flag.as_str());
                s.append("' but none was supplied");
                s
            },
            ParseError::InvalidValue { flag, value } => {
                let mut s = "error: invalid value '".to_owned();
                s.append(value.as_str());
                s.append("' for '");
                s.append(flag.as_str());
                s.append("'");
                s
            },
            ParseError::DisplayVersion => {
                let mut s = "flockd ".to_owned();
                s.append(version);
                s
            },
            ParseError::DisplayHelp => HELP_TEXT.to_owned(),
        }
    }
}

impl Cli {
    /// Parses an argument list that is known to yield a configuration.
    pub fn parse_from(args: &Vec<String>) -> (r: Cli)
        requires
            parse_args(args.deep_view()) is Ok,
        ensures
            parse_args(args.deep_view()) == Ok::<CliView, ParseErrorView>(r@),
    {
        match Cli::try_parse_from(args) {
            Ok(c) => c,
            Err(_) => vstd::pervasive::unreached(),
        }
    }

    /// The startup banner: program name and version, level and config path,
    /// one per line.
    pub fn banner(&self, version: &str) -> (r: String)
        ensures
            r@ == banner_text(self@, version@),
    {
        let mut s = "flockd v".to_owned();
        s.append(version);
        s.append("\nlog_level=");
        s.append(self.log_level.as_str());
        s.append("\nconfig=");
        s.append(self.config.as_str());
        s
    }

    /// Parses an argument list (program name first) into a configuration,
    /// or says why it cannot.
    pub fn try_parse_from(args: &Vec<String>) -> (r: Result<Cli, ParseError>)
        ensures
            outcome_view(r) == parse_args(args.deep_view()),
    {
        let ghost a = args.deep_view();
        let mut log_level = LogLevel::Info;
        let mut config = DEFAULT_CONFIG_PATH.to_owned();
        let mut i: usize = 1;
        while i < args.len()
            invariant
                a == args.deep_view(),
                1 <= i,
                parse_from_index(a, i as int, CliView { log_level, config: config@ }) == parse_args(
                    a,
                ),
            decreases args.len() - i,
        {
            let t = args[i].as_str();
            assert(t@ == a[i as int]);
            if text_eq(t, "--help") || text_eq(t, "-h") {
                return Err(ParseError::DisplayHelp);
            } else if text_eq(t, "--version") || text_eq(t, "-V") {
                return Err(ParseError::DisplayVersion);
            }
            let is_level = text_eq(t, "--log-level");
            if is_level || text_eq(t, "--config") {
                if i + 1 >= args.len() || option_like(args[i + 1].as_str()) {
                    return Err(ParseError::MissingValue { flag: args[i].clone() });
                }
                let v = args[i + 1].as_str();
                assert(v@ == a[i + 1]);
                if is_level {
                    match LogLevel::from_token(v) {
                        Some(l) => {
                            log_level = l;
                        },
                        None => {
                            return Err(
                                ParseError::InvalidValue {
                                    flag: args[i].clone(),
                                    value: args[i + 1].clone(),
                                },
                            );
                        },
                    }
                } else {
                    config = args[i + 1].clone();
                }
                i = i + 2;
            } else {
                return Err(ParseError::UnrecognizedArgument { token: args[i].clone() });
            }
        }
        Ok(Cli { log_level, config })
    }
}

} // verus!
