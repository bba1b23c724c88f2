//! Command-line parsing for the control tool and the daemon.
//!
//! Both parsers work on the argument strings alone (no environment,
//! no process state) and their whole behaviour is pinned by the spec
//! functions below: which command results, which options take values,
//! and which argument produces which error.

use vstd::prelude::*;
use vstd::string::StringExecFns;
use vstd::string::StrSliceExecFns;

verus! {

/// What the control tool was asked to do.
#[derive(Debug, Clone, Copy, PartialEq, Eq, Structural)]
pub enum CommandKind {
    HidSelfTest,
    Help,
}

/// Parsed control-tool arguments. A `hidd_path` of `None` means no
/// `--hidd` option was given and the caller should look for the
/// daemon binary next to its own executable.
#[derive(Debug, Clone)]
pub struct Args {
    pub cmd: CommandKind,
    pub config_path: String,
    pub hidd_path: Option<String>,
    pub pattern_seconds: u64,
}

/// Parsed daemon arguments.
#[derive(Debug, Clone)]
pub struct DaemonArgs {
    pub validate_config: bool,
    pub self_test: bool,
    pub config_path: String,
}

/// What the daemon was asked to do: print usage, or run with parsed
/// arguments.
#[derive(Debug, Clone)]
pub enum DaemonCommand {
    Help,
    Run(DaemonArgs),
}

/// Why parsing failed; each variant carries the offending argument
/// where the message needs it.
#[derive(Debug, Clone, PartialEq, Eq)]
pub enum ArgsError {
    UnknownCommand(String),
    MissingHidSubcommand,
    UnknownHidSubcommand(String),
    MissingConfigValue,
    MissingHiddValue,
    MissingPatternSecondsValue,
    InvalidPatternSeconds(String),
    PatternSecondsOutOfRange,
    UnknownArgument(String),
}

/// Spec-level image of `Args`.
pub struct SpecArgs {
    pub cmd: CommandKind,
    pub config_path: Seq<char>,
    pub hidd_path: Option<Seq<char>>,
    pub pattern_seconds: u64,
}

/// Spec-level image of `DaemonArgs`.
pub struct SpecDaemonArgs {
    pub validate_config: bool,
    pub self_test: bool,
    pub config_path: Seq<char>,
}

/// Spec-level image of `DaemonCommand`.
pub enum SpecDaemonCommand {
    Help,
    Run(SpecDaemonArgs),
}

/// Spec-level image of `ArgsError`.
pub enum SpecArgsError {
    UnknownCommand(Seq<char>),
    MissingHidSubcommand,
    UnknownHidSubcommand(Seq<char>),
    MissingConfigValue,
    MissingHiddValue,
    MissingPatternSecondsValue,
    InvalidPatternSeconds(Seq<char>),
    PatternSecondsOutOfRange,
    UnknownArgument(Seq<char>),
}

impl View for Args {
    type V = SpecArgs;

    open spec fn view(&self) -> SpecArgs {
        SpecArgs {
            cmd: self.cmd,
            config_path: self.config_path@,
            hidd_path: self.hidd_path.deep_view(),
            pattern_seconds: self.pattern_seconds,
        }
    }
}

impl View for DaemonArgs {
    type V = SpecDaemonArgs;

    open spec fn view(&self) -> SpecDaemonArgs {
        SpecDaemonArgs {
            validate_config: self.validate_config,
            self_test: self.self_test,
            config_path: self.config_path@,
        }
    }
}

impl View for DaemonCommand {
    type V = SpecDaemonCommand;

    open spec fn view(&self) -> SpecDaemonCommand {
        match self {
            DaemonCommand::Help => SpecDaemonCommand::Help,
            DaemonCommand::Run(a) => SpecDaemonCommand::Run(a@),
        }
    }
}

impl View for ArgsError {
    type V = SpecArgsError;

    open spec fn view(&self) -> SpecArgsError {
        match self {
            ArgsError::UnknownCommand(s) => SpecArgsError::UnknownCommand(s@),
            ArgsError::MissingHidSubcommand => SpecArgsError::MissingHidSubcommand,
            ArgsError::UnknownHidSubcommand(s) => SpecArgsError::UnknownHidSubcommand(s@),
            ArgsError::MissingConfigValue => SpecArgsError::MissingConfigValue,
            ArgsError::MissingHiddValue => SpecArgsError::MissingHiddValue,
            ArgsError::MissingPatternSecondsValue => SpecArgsError::MissingPatternSecondsValue,
            ArgsError::InvalidPatternSeconds(s) => SpecArgsError::InvalidPatternSeconds(s@),
            ArgsError::PatternSecondsOutOfRange => SpecArgsError::PatternSecondsOutOfRange,
            ArgsError::UnknownArgument(s) => SpecArgsError::UnknownArgument(s@),
        }
    }
}

/// Where the daemon looks for its configuration when no `--config`
/// option is given.
pub fn default_hid_config_path() -> (r: &'static str)
    ensures
        r@ == "/etc/controlleros/hid.toml"@,
{
    "/etc/controlleros/hid.toml"
}

/// A decimal digit.
pub open spec fn spec_is_digit(c: char) -> bool {
    48 <= c as u32 <= 57
}

/// The numeric value of a decimal digit.
pub open spec fn spec_digit_val(c: char) -> int {
    c as u32 - 48
}

/// The value of a digit string, most significant digit first.
pub open spec fn spec_digits_val(s: Seq<char>) -> int
    decreases s.len(),
{
    if s.len() == 0 {
        0
    } else {
        spec_digits_val(s.drop_last()) * 10 + spec_digit_val(s.last())
    }
}

/// Whether every character is a decimal digit.
pub open spec fn spec_all_digits(s: Seq<char>) -> bool {
    forall|i: int| 0 <= i < s.len() ==> spec_is_digit(#[trigger] s[i])
}

/// The unsigned value a string parses to: an optional leading `+`,
/// then at least one digit, and a value that fits 64 bits; anything
/// else parses to nothing.
pub open spec fn spec_parse_u64(s: Seq<char>) -> Option<u64> {
    let digits = if s.len() >= 1 && s[0] == '+' {
        s.subrange(1, s.len() as int)
    } else {
        s
    };
    if digits.len() >= 1 && spec_all_digits(digits) && spec_digits_val(digits) <= u64::MAX {
        Some(spec_digits_val(digits) as u64)
    } else {
        None
    }
}

/// A digit string's value is never negative.
proof fn lemma_digits_val_nonneg(s: Seq<char>)
    requires
        spec_all_digits(s),
    ensures
        spec_digits_val(s) >= 0,
    decreases s.len(),
{
    if s.len() > 0 {
        assert(spec_all_digits(s.drop_last()));
        lemma_digits_val_nonneg(s.drop_last());
    }
}

/// Extending a digit string never shrinks its value.
proof fn lemma_digits_val_prefix(s: Seq<char>, k: int)
    requires
        spec_all_digits(s),
        0 <= k <= s.len(),
    ensures
        spec_digits_val(s.subrange(0, k)) <= spec_digits_val(s),
    decreases s.len() - k,
{
    if k < s.len() {
        let p = s.subrange(0, k);
        let q = s.subrange(0, k + 1);
        assert(q.drop_last() =~= p);
        assert(spec_all_digits(p));
        lemma_digits_val_nonneg(p);
        assert(spec_digits_val(q) == spec_digits_val(p) * 10 + spec_digit_val(q.last()));
        assert(spec_digits_val(p) * 10 >= spec_digits_val(p)) by (nonlinear_arith)
            requires
                spec_digits_val(p) >= 0,
        ;
        lemma_digits_val_prefix(s, k + 1);
    } else {
        assert(s.subrange(0, k) =~= s);
    }
}

/// Parses an unsigned decimal number exactly as `spec_parse_u64`
/// describes.
#[verifier::loop_isolation(false)]
pub fn parse_u64(s: &String) -> (r: Option<u64>)
    ensures
        r == spec_parse_u64(s@),
{
    let a = s.as_str();
    let len = a.unicode_len();
    let mut i: usize = 0;
    if len > 0 && a.get_char(0) == '+' {
        i = 1;
    }
    let start = i;
    let ghost digits = if s@.len() >= 1 && s@[0] == '+' {
        s@.subrange(1, s@.len() as int)
    } else {
        s@
    };
    proof {
        assert(digits =~= s@.subrange(start as int, len as int));
    }
    if i >= len {
        return None;
    }
    let mut val: u64 = 0;
    while i < len
        invariant
            start <= i <= len,
            a@ == s@,
            len == s@.len(),
            start == 0 || start == 1,
            digits =~= s@.subrange(start as int, len as int),
            spec_all_digits(s@.subrange(start as int, i as int)),
            val == spec_digits_val(s@.subrange(start as int, i as int)),
        decreases len - i,
    {
        let c = a.get_char(i);
        let u = c as u32;
        if u < 48 || u > 57 {
            proof {
                assert(!spec_is_digit(s@[i as int]));
                assert(digits[i - start] == s@[i as int]);
                assert(!spec_all_digits(digits));
                assert(spec_parse_u64(s@) is None);
            }
            return None;
        }
        let d = (u - 48) as u64;
        let ghost prefix = s@.subrange(start as int, i as int);
        let ghost prefix1 = s@.subrange(start as int, i + 1);
        proof {
            assert(prefix1.drop_last() =~= prefix);
            assert forall|j: int| 0 <= j < prefix1.len() implies spec_is_digit(prefix1[j]) by {
                if j < prefix1.len() - 1 {
                    assert(prefix1[j] == prefix[j]);
                } else {
                    assert(prefix1[j] == s@[i as int]);
                }
            }
            assert(spec_all_digits(prefix1));
            assert(spec_digits_val(prefix1) == spec_digits_val(prefix) * 10 + spec_digit_val(
                s@[i as int],
            ));
        }
        if val > 1844674407370955161 || (val == 1844674407370955161 && d > 5) {
            proof {
                assert(spec_digits_val(prefix1) > u64::MAX);
                assert(prefix1 =~= digits.subrange(0, i + 1 - start));
                if spec_all_digits(digits) {
                    lemma_digits_val_prefix(digits, i + 1 - start);
                    assert(spec_digits_val(digits) > u64::MAX);
                }
                assert(spec_parse_u64(s@) is None);
            }
            return None;
        }
        val = val * 10 + d;
        i += 1;
    }
    proof {
        assert(s@.subrange(start as int, i as int) =~= digits);
        assert(digits.len() >= 1);
        lemma_digits_val_nonneg(digits);
    }
    Some(val)
}

/// True when the string equals the literal.
fn str_is(a: &String, lit: &str) -> (r: bool)
    ensures
        r == (a@ == lit@),
{
    let s: String = lit.to_owned();
    *a == s
}

/// The control tool's grammar, options part: from position `i` on,
/// every option either updates the accumulator or ends parsing with
/// an error; `--help` anywhere switches the command to `Help` but
/// parsing continues.
pub open spec fn spec_parse_opts(args: Seq<Seq<char>>, i: int, cur: SpecArgs) -> Result<
    SpecArgs,
    SpecArgsError,
>
    decreases args.len() - i,
{
    if i < 0 || i >= args.len() {
        Ok(cur)
    } else {
        let a = args[i];
        if a == "--config"@ {
            if i + 1 < args.len() {
                spec_parse_opts(args, i + 2, SpecArgs { config_path: args[i + 1], ..cur })
            } else {
                Err(SpecArgsError::MissingConfigValue)
            }
        } else if a == "--hidd"@ {
            if i + 1 < args.len() {
                spec_parse_opts(args, i + 2, SpecArgs { hidd_path: Some(args[i + 1]), ..cur })
            } else {
                Err(SpecArgsError::MissingHiddValue)
            }
        } else if a == "--pattern-seconds"@ {
            if i + 1 < args.len() {
                match spec_parse_u64(args[i + 1]) {
                    None => Err(SpecArgsError::InvalidPatternSeconds(args[i + 1])),
                    Some(v) => if v == 0 || v > 30 {
                        Err(SpecArgsError::PatternSecondsOutOfRange)
                    } else {
                        spec_parse_opts(args, i + 2, SpecArgs { pattern_seconds: v, ..cur })
                    },
                }
            } else {
                Err(SpecArgsError::MissingPatternSecondsValue)
            }
        } else if a == "--help"@ || a == "-h"@ {
            spec_parse_opts(args, i + 1, SpecArgs { cmd: CommandKind::Help, ..cur })
        } else {
            Err(SpecArgsError::UnknownArgument(a))
        }
    }
}

/// The control tool's defaults before any option is seen.
pub open spec fn spec_default_args(cmd: CommandKind) -> SpecArgs {
    SpecArgs {
        cmd,
        config_path: "/etc/controlleros/hid.toml"@,
        hidd_path: None,
        pattern_seconds: 2,
    }
}

/// The control tool's whole grammar: no arguments, `--help` or `-h`
/// mean `Help`; `hid` must be followed by `self-test`; anything else
/// is unknown; then the options.
pub open spec fn spec_parse(args: Seq<Seq<char>>) -> Result<SpecArgs, SpecArgsError> {
    if args.len() == 0 {
        Ok(spec_default_args(CommandKind::Help))
    } else if args[0] == "--help"@ || args[0] == "-h"@ {
        spec_parse_opts(args, 1, spec_default_args(CommandKind::Help))
    } else if args[0] == "hid"@ {
        if args.len() == 1 {
            Err(SpecArgsError::MissingHidSubcommand)
        } else if args[1] == "self-test"@ {
            spec_parse_opts(args, 2, spec_default_args(CommandKind::HidSelfTest))
        } else {
            Err(SpecArgsError::UnknownHidSubcommand(args[1]))
        }
    } else {
        Err(SpecArgsError::UnknownCommand(args[0]))
    }
}

impl Args {
    /// Parses the control tool's arguments exactly as `spec_parse`
    /// describes.
    pub fn parse(args: Vec<String>) -> (r: Result<Args, ArgsError>)
        ensures
            match (r, spec_parse(args.deep_view())) {
                (Ok(a), Ok(sa)) => a@ == sa,
                (Err(e), Err(se)) => e@ == se,
                _ => false,
            },
    {
        let ghost dv = args.deep_view();
        proof {
            assert(dv.len() == args@.len());
            assert(forall|k: int| 0 <= k < args@.len() ==> dv[k] == #[trigger] args@[k]@);
        }
        let mut cmd: CommandKind;
        let mut i: usize;
        if args.len() == 0 {
            cmd = CommandKind::Help;
            i = 0;
        } else if str_is(&args[0], "--help") || str_is(&args[0], "-h") {
            cmd = CommandKind::Help;
            i = 1;
        } else if str_is(&args[0], "hid") {
            if args.len() == 1 {
                return Err(ArgsError::MissingHidSubcommand);
            }
            if str_is(&args[1], "self-test") {
                cmd = CommandKind::HidSelfTest;
                i = 2;
            } else {
                return Err(ArgsError::UnknownHidSubcommand(args[1].clone()));
            }
        } else {
            return Err(ArgsError::UnknownCommand(args[0].clone()));
        }
        let mut config_path: String = String::from_str(default_hid_config_path());
        let mut hidd_path: Option<String> = None;
        let mut pattern_seconds: u64 = 2;
        proof {
            let cur = SpecArgs {
                cmd,
                config_path: config_path@,
                hidd_path: hidd_path.deep_view(),
                pattern_seconds,
            };
            assert(cur == spec_default_args(cmd));
            assert(spec_parse(dv) == spec_parse_opts(dv, i as int, cur));
        }
        while i < args.len()
            invariant
                i <= args@.len(),
                dv == args.deep_view(),
                dv.len() == args@.len(),
                forall|k: int| 0 <= k < args@.len() ==> dv[k] == #[trigger] args@[k]@,
                spec_parse(dv) == spec_parse_opts(
                    dv,
                    i as int,
                    SpecArgs {
                        cmd,
                        config_path: config_path@,
                        hidd_path: hidd_path.deep_view(),
                        pattern_seconds,
                    },
                ),
            decreases args@.len() - i,
        {
            if str_is(&args[i], "--config") {
                if i + 1 < args.len() {
                    config_path = args[i + 1].clone();
                    i += 2;
                } else {
                    return Err(ArgsError::MissingConfigValue);
                }
            } else if str_is(&args[i], "--hidd") {
                if i + 1 < args.len() {
                    hidd_path = Some(args[i + 1].clone());
                    i += 2;
                } else {
                    return Err(ArgsError::MissingHiddValue);
                }
            } else if str_is(&args[i], "--pattern-seconds") {
                if i + 1 < args.len() {
                    match parse_u64(&args[i + 1]) {
                        None => {
                            return Err(ArgsError::InvalidPatternSeconds(args[i + 1].clone()));
                        },
                        Some(v) => {
                            if v == 0 || v > 30 {
                                return Err(ArgsError::PatternSecondsOutOfRange);
                            }
                            pattern_seconds = v;
                            i += 2;
                        },
                    }
                } else {
                    return Err(ArgsError::MissingPatternSecondsValue);
                }
            } else if str_is(&args[i], "--help") || str_is(&args[i], "-h") {
                cmd = CommandKind::Help;
                i += 1;
            } else {
                return Err(ArgsError::UnknownArgument(args[i].clone()));
            }
        }
        Ok(Args { cmd, config_path, hidd_path, pattern_seconds })
    }
}

/// The daemon's grammar: flags accumulate, `--config` takes a value,
/// `--help` or `-h` ends parsing at once with `Help`, and anything
/// else is unknown.
pub open spec fn spec_daemon_parse_opts(args: Seq<Seq<char>>, i: int, cur: SpecDaemonArgs) -> Result<
    SpecDaemonCommand,
    SpecArgsError,
>
    decreases args.len() - i,
{
    if i < 0 || i >= args.len() {
        Ok(SpecDaemonCommand::Run(cur))
    } else {
        let a = args[i];
        if a == "--validate-config"@ {
            spec_daemon_parse_opts(args, i + 1, SpecDaemonArgs { validate_config: true, ..cur })
        } else if a == "--self-test"@ {
            spec_daemon_parse_opts(args, i + 1, SpecDaemonArgs { self_test: true, ..cur })
        } else if a == "--config"@ {
            if i + 1 < args.len() {
                spec_daemon_parse_opts(args, i + 2, SpecDaemonArgs { config_path: args[i + 1], ..cur })
            } else {
                Err(SpecArgsError::MissingConfigValue)
            }
        } else if a == "--help"@ || a == "-h"@ {
            Ok(SpecDaemonCommand::Help)
        } else {
            Err(SpecArgsError::UnknownArgument(a))
        }
    }
}

/// The daemon's whole grammar, from its defaults.
pub open spec fn spec_daemon_parse(args: Seq<Seq<char>>) -> Result<
    SpecDaemonCommand,
    SpecArgsError,
> {
    spec_daemon_parse_opts(
        args,
        0,
        SpecDaemonArgs {
            validate_config: false,
            self_test: false,
            config_path: "/etc/controlleros/hid.toml"@,
        },
    )
}

impl DaemonArgs {
    /// Parses the daemon's arguments exactly as `spec_daemon_parse`
    /// describes.
    pub fn parse(args: Vec<String>) -> (r: Result<DaemonCommand, ArgsError>)
        ensures
            match (r, spec_daemon_parse(args.deep_view())) {
                (Ok(c), Ok(sc)) => c@ == sc,
                (Err(e), Err(se)) => e@ == se,
                _ => false,
            },
    {
        let ghost dv = args.deep_view();
        proof {
            assert(dv.len() == args@.len());
            assert(forall|k: int| 0 <= k < args@.len() ==> dv[k] == #[trigger] args@[k]@);
        }
        let mut validate_config = false;
        let mut self_test = false;
        let mut config_path: String = String::from_str(default_hid_config_path());
        let mut i: usize = 0;
        while i < args.len()
            invariant
                i <= args@.len(),
                dv == args.deep_view(),
                dv.len() == args@.len(),
                forall|k: int| 0 <= k < args@.len() ==> dv[k] == #[trigger] args@[k]@,
                spec_daemon_parse(dv) == spec_daemon_parse_opts(
                    dv,
                    i as int,
                    SpecDaemonArgs { validate_config, self_test, config_path: config_path@ },
                ),
            decreases args@.len() - i,
        {
            if str_is(&args[i], "--validate-config") {
                validate_config = true;
                i += 1;
            } else if str_is(&args[i], "--self-test") {
                self_test = true;
                i += 1;
            } else if str_is(&args[i], "--config") {
                if i + 1 < args.len() {
                    config_path = args[i + 1].clone();
                    i += 2;
                } else {
                    return Err(ArgsError::MissingConfigValue);
                }
            } else if str_is(&args[i], "--help") || str_is(&args[i], "-h") {
                return Ok(DaemonCommand::Help);
            } else {
                return Err(ArgsError::UnknownArgument(args[i].clone()));
            }
        }
        Ok(DaemonCommand::Run(DaemonArgs { validate_config, self_test, config_path }))
    }
}

impl ArgsError {
    /// The human-readable reason, carrying the offending argument
    /// where there is one.
    pub fn message(&self) -> (m: String)
        ensures
            m@ == match self@ {
                SpecArgsError::UnknownCommand(s) => "unknown command: "@ + s,
                SpecArgsError::MissingHidSubcommand => "missing hid subcommand (expected: self-test)"@,
                SpecArgsError::UnknownHidSubcommand(s) => "unknown hid subcommand: "@ + s,
                SpecArgsError::MissingConfigValue => "missing value for --config"@,
                SpecArgsError::MissingHiddValue => "missing value for --hidd"@,
                SpecArgsError::MissingPatternSecondsValue => "missing value for --pattern-seconds"@,
                SpecArgsError::InvalidPatternSeconds(s) => "invalid --pattern-seconds value: "@ + s,
                SpecArgsError::PatternSecondsOutOfRange => "--pattern-seconds must be in 1..=30"@,
                SpecArgsError::UnknownArgument(s) => "unknown argument: "@ + s,
            },
    {
        match self {
            ArgsError::UnknownCommand(s) => {
                let mut m = String::from_str("unknown command: ");
                m.append(s.as_str());
                m
            },
            ArgsError::MissingHidSubcommand => String::from_str(
                "missing hid subcommand (expected: self-test)",
            ),
            ArgsError::UnknownHidSubcommand(s) => {
                let mut m = String::from_str("unknown hid subcommand: ");
                m.append(s.as_str());
                m
            },
            ArgsError::MissingConfigValue => String::from_str("missing value for --config"),
            ArgsError::MissingHiddValue => String::from_str("missing value for --hidd"),
            ArgsError::MissingPatternSecondsValue => String::from_str(
                "missing value for --pattern-seconds",
            ),
            ArgsError::InvalidPatternSeconds(s) => {
                let mut m = String::from_str("invalid --pattern-seconds value: ");
                m.append(s.as_str());
                m
            },
            ArgsError::PatternSecondsOutOfRange => String::from_str(
                "--pattern-seconds must be in 1..=30",
            ),
            ArgsError::UnknownArgument(s) => {
                let mut m = String::from_str("unknown argument: ");
                m.append(s.as_str());
                m
            },
        }
    }
}

} // verus!
