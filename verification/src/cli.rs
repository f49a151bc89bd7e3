//! Command-line arguments: what each option sets, and when parsing stops.

use vstd::prelude::*;

use crate::text::str_eq;

verus! {

/// Usage text printed for `--help` and after an unknown argument.
pub const HELP: &'static str = "\
intel-features — detect Intel® processor and platform features

USAGE:
    intel-features [OPTIONS]

OPTIONS:
    -j, --json        Emit the report as JSON
    -v, --verbose     Show each probe's finding under every feature (text mode)
    -a, --all         Include features detected as absent (hidden by default)
        --load-msr-module
                      If root and /dev/cpu/0/msr is missing, run modprobe msr once
        --no-color    Disable ANSI colors
    -h, --help        Print this help
    -V, --version     Print version

EXIT CODES:
    0  ran successfully
    1  internal probe/report error
    2  bad arguments

TRADEMARKS:
    Intel and other Intel marks are trademarks of Intel Corporation or its subsidiaries.
    This independent project is not affiliated with or endorsed by Intel Corporation.
";

/// The options of one run.
#[derive(Debug, Clone, Copy, PartialEq, Eq, Structural)]
pub struct Args {
    pub json: bool,
    pub verbose: bool,
    pub show_absent: bool,
    /// `Some` when `--color` or `--no-color` was given (the last one wins).
    pub color: Option<bool>,
    pub load_msr_module: bool,
}

/// Why parsing stopped before a run.
#[derive(Debug)]
pub enum ArgsExit {
    /// `-h` / `--help`: print the usage text.
    Help,
    /// `-V` / `--version`: print the version.
    Version,
    /// An argument no option names.
    UnknownArgument(String),
}

impl ArgsExit {
    /// Process exit code: 0 after help or version, 2 for a bad argument.
    pub fn exit_code(&self) -> (r: u8)
        ensures
            r == (if self is UnknownArgument {
                2u8
            } else {
                0u8
            }),
    {
        match self {
            ArgsExit::UnknownArgument(_) => 2,
            _ => 0,
        }
    }
}

pub open spec fn no_options() -> Args {
    Args { json: false, verbose: false, show_absent: false, color: None, load_msr_module: false }
}

/// The options after applying `arg`, when `arg` sets one.
pub open spec fn apply_arg(a: Args, arg: Seq<char>) -> Option<Args> {
    if arg == "-j"@ || arg == "--json"@ {
        Some(Args { json: true, ..a })
    } else if arg == "-v"@ || arg == "--verbose"@ {
        Some(Args { verbose: true, ..a })
    } else if arg == "-a"@ || arg == "--all"@ {
        Some(Args { show_absent: true, ..a })
    } else if arg == "--no-color"@ {
        Some(Args { color: Some(false), ..a })
    } else if arg == "--color"@ {
        Some(Args { color: Some(true), ..a })
    } else if arg == "--load-msr-module"@ {
        Some(Args { load_msr_module: true, ..a })
    } else {
        None
    }
}

pub open spec fn is_help(arg: Seq<char>) -> bool {
    arg == "-h"@ || arg == "--help"@
}

pub open spec fn is_version(arg: Seq<char>) -> bool {
    arg == "-V"@ || arg == "--version"@
}

/// Parsing the arguments in order: the options they set, or the first argument that
/// stops the run (help, version, or an unknown argument).
pub open spec fn parse_spec(args: Seq<Seq<char>>) -> Result<Args, Seq<char>>
    decreases args.len(),
{
    if args.len() == 0 {
        Ok(no_options())
    } else {
        match parse_spec(args.drop_last()) {
            Err(stop) => Err(stop),
            Ok(a) => match apply_arg(a, args.last()) {
                Some(b) => Ok(b),
                None => Err(args.last()),
            },
        }
    }
}

pub open spec fn arg_views(args: Seq<String>) -> Seq<Seq<char>> {
    args.map_values(|s: String| s@)
}

fn apply(a: Args, arg: &str) -> (r: Option<Args>)
    ensures
        r == apply_arg(a, arg@),
{
    if str_eq(arg, "-j") || str_eq(arg, "--json") {
        Some(Args { json: true, ..a })
    } else if str_eq(arg, "-v") || str_eq(arg, "--verbose") {
        Some(Args { verbose: true, ..a })
    } else if str_eq(arg, "-a") || str_eq(arg, "--all") {
        Some(Args { show_absent: true, ..a })
    } else if str_eq(arg, "--no-color") {
        Some(Args { color: Some(false), ..a })
    } else if str_eq(arg, "--color") {
        Some(Args { color: Some(true), ..a })
    } else if str_eq(arg, "--load-msr-module") {
        Some(Args { load_msr_module: true, ..a })
    } else {
        None
    }
}

/// Parses the arguments after the program name.
pub fn parse_args_from(args: &Vec<String>) -> (r: Result<Args, ArgsExit>)
    ensures
        match (r, parse_spec(arg_views(args@))) {
            (Ok(a), Ok(b)) => a == b,
            (Err(ArgsExit::Help), Err(stop)) => is_help(stop),
            (Err(ArgsExit::Version), Err(stop)) => is_version(stop),
            (Err(ArgsExit::UnknownArgument(s)), Err(stop)) => s@ == stop && !is_help(stop)
                && !is_version(stop),
            _ => false,
        },
{
    let mut a = Args {
        json: false,
        verbose: false,
        show_absent: false,
        color: None,
        load_msr_module: false,
    };
    let mut i: usize = 0;
    assert(arg_views(args@).take(0) =~= Seq::<Seq<char>>::empty());
    while i < args.len()
        invariant
            i <= args@.len(),
            parse_spec(arg_views(args@).take(i as int)) == Ok::<Args, Seq<char>>(a),
        decreases args.len() - i,
    {
        let ghost t = arg_views(args@).take(i + 1);
        assert(t.drop_last() =~= arg_views(args@).take(i as int));
        assert(t.last() == args@[i as int]@);
        let arg = args[i].as_str();
        match apply(a, arg) {
            Some(b) => {
                a = b;
            },
            None => {
                proof {
                    lemma_parse_stops(arg_views(args@), i + 1);
                }
                if str_eq(arg, "-h") || str_eq(arg, "--help") {
                    return Err(ArgsExit::Help);
                }
                if str_eq(arg, "-V") || str_eq(arg, "--version") {
                    return Err(ArgsExit::Version);
                }
                return Err(ArgsExit::UnknownArgument(args[i].clone()));
            },
        }
        i += 1;
    }
    assert(arg_views(args@).take(i as int) =~= arg_views(args@));
    Ok(a)
}

/// What each option does to the options gathered so far: `-j`/`--json` turns on JSON,
/// `-v`/`--verbose` verbose rows, `-a`/`--all` absent features, `--no-color` and
/// `--color` fix the colouring (the later one wins), `--load-msr-module` opts in to the
/// module load; each leaves every other option as it was. `-h`/`--help` and
/// `-V`/`--version` stop the run and set nothing.
pub proof fn option_effects(a: Args)
    ensures
        apply_arg(a, "-j"@) == Some(Args { json: true, ..a }),
        apply_arg(a, "--json"@) == Some(Args { json: true, ..a }),
        apply_arg(a, "-v"@) == Some(Args { verbose: true, ..a }),
        apply_arg(a, "--verbose"@) == Some(Args { verbose: true, ..a }),
        apply_arg(a, "-a"@) == Some(Args { show_absent: true, ..a }),
        apply_arg(a, "--all"@) == Some(Args { show_absent: true, ..a }),
        apply_arg(a, "--no-color"@) == Some(Args { color: Some(false), ..a }),
        apply_arg(a, "--color"@) == Some(Args { color: Some(true), ..a }),
        apply_arg(a, "--load-msr-module"@) == Some(Args { load_msr_module: true, ..a }),
        apply_arg(a, "-h"@) is None && is_help("-h"@) && is_help("--help"@),
        apply_arg(a, "--help"@) is None,
        apply_arg(a, "-V"@) is None && is_version("-V"@) && is_version("--version"@),
        apply_arg(a, "--version"@) is None,
{
    reveal_strlit("-j");
    reveal_strlit("--json");
    reveal_strlit("-v");
    reveal_strlit("--verbose");
    reveal_strlit("-a");
    reveal_strlit("--all");
    reveal_strlit("--no-color");
    reveal_strlit("--color");
    reveal_strlit("--load-msr-module");
    reveal_strlit("-h");
    reveal_strlit("--help");
    reveal_strlit("-V");
    reveal_strlit("--version");
    assert("-j"@.len() == 2);
    assert("--json"@.len() == 6);
    assert("-v"@.len() == 2);
    assert("--verbose"@.len() == 9);
    assert("-a"@.len() == 2);
    assert("--all"@.len() == 5);
    assert("--no-color"@.len() == 10);
    assert("--color"@.len() == 7);
    assert("--load-msr-module"@.len() == 17);
    assert("-h"@.len() == 2);
    assert("--help"@.len() == 6);
    assert("-V"@.len() == 2);
    assert("--version"@.len() == 9);
    assert("-v"@ != "-j"@ && "--verbose"@ != "--json"@) by {
        assert("-v"@[1] != "-j"@[1]);
        assert("--verbose"@.len() != "--json"@.len());
    }
    assert("-a"@ != "-j"@ && "-a"@ != "-v"@) by {
        assert("-a"@[1] != "-j"@[1] && "-a"@[1] != "-v"@[1]);
    }
    assert("-h"@ != "-j"@ && "-h"@ != "-v"@ && "-h"@ != "-a"@) by {
        assert("-h"@[1] != "-j"@[1] && "-h"@[1] != "-v"@[1] && "-h"@[1] != "-a"@[1]);
    }
    assert("-V"@ != "-j"@ && "-V"@ != "-v"@ && "-V"@ != "-a"@) by {
        assert("-V"@[1] != "-j"@[1] && "-V"@[1] != "-v"@[1] && "-V"@[1] != "-a"@[1]);
    }
    assert("--help"@ != "--json"@) by {
        assert("--help"@[2] != "--json"@[2]);
    }
    assert("--version"@ != "--verbose"@) by {
        assert("--version"@[5] != "--verbose"@[5]);
    }
}

/// Once a prefix stops the run, the whole argument list stops at the same argument.
pub proof fn lemma_parse_stops(args: Seq<Seq<char>>, n: int)
    requires
        0 <= n <= args.len(),
        parse_spec(args.take(n)) is Err,
    ensures
        parse_spec(args) == parse_spec(args.take(n)),
    decreases args.len(),
{
    if n < args.len() {
        assert(args.drop_last().take(n) =~= args.take(n));
        lemma_parse_stops(args.drop_last(), n);
    } else {
        assert(args.take(n) =~= args);
    }
}

} // verus!
