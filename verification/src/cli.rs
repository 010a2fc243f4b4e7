//! Command-line arguments: which configuration file to use, or whether to
//! print the usage or the version, and the texts printed for each.
use vstd::prelude::*;

verus! {

/// Arguments of a normal start.
pub struct Args {
    /// Configuration file given with `-c` / `--config`.
    pub config_file: Option<String>,
}

/// What the command line asks for.
pub enum ArgsOutcome {
    /// Start the client.
    Run(Args),
    /// Print the usage and stop (`-h`, `--help`).
    ShowHelp,
    /// Print the version and stop (`-v`, `--version`).
    ShowVersion,
    /// An option that is not known; print an error and stop with failure.
    UnknownOption(String),
}

/// What the command line asks for, with texts as character sequences.
pub enum ArgsRequest {
    Run(Option<Seq<char>>),
    ShowHelp,
    ShowVersion,
    UnknownOption(Seq<char>),
}

impl View for ArgsOutcome {
    type V = ArgsRequest;

    open spec fn view(&self) -> ArgsRequest {
        match self {
            ArgsOutcome::Run(a) => ArgsRequest::Run(
                match a.config_file {
                    Some(f) => Some(f@),
                    None => None,
                },
            ),
            ArgsOutcome::ShowHelp => ArgsRequest::ShowHelp,
            ArgsOutcome::ShowVersion => ArgsRequest::ShowVersion,
            ArgsOutcome::UnknownOption(o) => ArgsRequest::UnknownOption(o@),
        }
    }
}

/// Whether the argument names the configuration file option.
pub open spec fn is_config_flag(a: Seq<char>) -> bool {
    a == "-c"@ || a == "--config"@
}

/// Whether the argument asks for the usage.
pub open spec fn is_help_flag(a: Seq<char>) -> bool {
    a == "-h"@ || a == "--help"@
}

/// Whether the argument asks for the version.
pub open spec fn is_version_flag(a: Seq<char>) -> bool {
    a == "-v"@ || a == "--version"@
}

/// The request made by `args[i..]`, the configuration file being `config`
/// so far. Arguments are read left to right: `-c` takes the next argument
/// as the file (none where there is no next one), and the last `-c` wins;
/// the first help, version or unknown argument decides at once.
pub open spec fn parse_from(args: Seq<Seq<char>>, i: int, config: Option<Seq<char>>) -> ArgsRequest
    decreases args.len() - i,
{
    if i < 0 || i >= args.len() {
        ArgsRequest::Run(config)
    } else if is_config_flag(args[i]) {
        if i + 1 < args.len() {
            parse_from(args, i + 2, Some(args[i + 1]))
        } else {
            ArgsRequest::Run(None)
        }
    } else if is_help_flag(args[i]) {
        ArgsRequest::ShowHelp
    } else if is_version_flag(args[i]) {
        ArgsRequest::ShowVersion
    } else {
        ArgsRequest::UnknownOption(args[i])
    }
}

/// The request made by the arguments that follow the program name.
pub open spec fn args_request(args: Seq<Seq<char>>) -> ArgsRequest {
    parse_from(args, 0, None)
}

fn same_text(arg: &String, option: &str) -> (b: bool)
    ensures
        b == (arg@ == option@),
{
    let o = String::from_str(option);
    *arg == o
}

/// Reads the arguments that follow the program name.
pub fn parse_args(args: &Vec<String>) -> (outcome: ArgsOutcome)
    ensures
        outcome@ == args_request(args.deep_view()),
{
    let ghost dv = args.deep_view();
    let mut config_file: Option<String> = None;
    let mut i: usize = 0;
    while i < args.len()
        invariant
            i <= args.len(),
            dv == args.deep_view(),
            dv.len() == args.len(),
            forall|k: int| 0 <= k < args.len() ==> #[trigger] dv[k] == args@[k]@,
            args_request(dv) == parse_from(
                dv,
                i as int,
                match config_file {
                    Some(f) => Some(f@),
                    None => None,
                },
            ),
        decreases args.len() - i,
    {
        let arg = &args[i];
        if same_text(arg, "-c") || same_text(arg, "--config") {
            if i + 1 < args.len() {
                config_file = Some(args[i + 1].clone());
                i = i + 2;
            } else {
                config_file = None;
                i = i + 1;
            }
        } else if same_text(arg, "-h") || same_text(arg, "--help") {
            return ArgsOutcome::ShowHelp;
        } else if same_text(arg, "-v") || same_text(arg, "--version") {
            return ArgsOutcome::ShowVersion;
        } else {
            return ArgsOutcome::UnknownOption(arg.clone());
        }
    }
    ArgsOutcome::Run(Args { config_file })
}

/// The usage text after the first line's version.
pub open spec fn usage_rest() -> Seq<char> {
    " -- A Rust port of the Alpine email client\n\nUsage: alpenrose [OPTIONS]\n\nOptions:\n  -c, --config <FILE>  Use specified config file\n                       (default: ~/.alpenrose.toml)\n  -h, --help           Show this help message\n  -v, --version        Show version\n\nAlpine-compatible options (planned):\n  -f <folder>          Open named folder on startup\n  -i                   Start in message index (skip main menu)\n  -n <number>          Start on message number\n  -p <pinerc>          Import legacy Alpine/Pine config file\n"@
}

/// The usage printed for `--help`.
pub fn usage_text(version: &str) -> (text: String)
    ensures
        text@ == "Alpenrose "@ + version@ + usage_rest(),
{
    let mut text = String::from_str("Alpenrose ");
    text.append(version);
    text.append(" -- A Rust port of the Alpine email client\n\nUsage: alpenrose [OPTIONS]\n\nOptions:\n  -c, --config <FILE>  Use specified config file\n                       (default: ~/.alpenrose.toml)\n  -h, --help           Show this help message\n  -v, --version        Show version\n\nAlpine-compatible options (planned):\n  -f <folder>          Open named folder on startup\n  -i                   Start in message index (skip main menu)\n  -n <number>          Start on message number\n  -p <pinerc>          Import legacy Alpine/Pine config file\n");
    text
}

/// The line printed for `--version`.
pub fn version_text(version: &str) -> (text: String)
    ensures
        text@ == "Alpenrose "@ + version@,
{
    let mut text = String::from_str("Alpenrose ");
    text.append(version);
    text
}

/// The two lines printed for an unknown option.
pub fn unknown_option_text(option: &str) -> (lines: (String, String))
    ensures
        lines.0@ == "Unknown option: "@ + option@,
        lines.1@ == "Try 'alpenrose --help' for more information."@,
{
    let mut first = String::from_str("Unknown option: ");
    first.append(option);
    (first, String::from_str("Try 'alpenrose --help' for more information."))
}

/// `-c FILE` chooses the configuration file, and of several the last one
/// wins.
pub proof fn lemma_last_config_wins(file1: Seq<char>, file2: Seq<char>)
    ensures
        args_request(seq!["-c"@, file1]) == ArgsRequest::Run(Some(file1)),
        args_request(seq!["--config"@, file1, "-c"@, file2]) == ArgsRequest::Run(Some(file2)),
{
    reveal_with_fuel(parse_from, 3);
}

/// An argument that is not `-c` decides the request by itself: arguments
/// appended after it change nothing.
pub proof fn lemma_first_stop_decides(args: Seq<Seq<char>>, rest: Seq<Seq<char>>, i: int, config: Option<Seq<char>>)
    requires
        0 <= i < args.len(),
        !is_config_flag(args[i]),
    ensures
        parse_from(args, i, config) == parse_from(args + rest, i, config),
{
    assert((args + rest)[i] == args[i]);
}

/// What a command line asks for, by its first arguments: nothing means a
/// normal start with the default configuration; `-h`/`--help` and
/// `-v`/`--version` decide at once, whatever follows; `-c` alone starts
/// with the default configuration; any other first argument is unknown.
pub proof fn lemma_requests(first: Seq<char>, rest: Seq<Seq<char>>)
    ensures
        args_request(Seq::empty()) == ArgsRequest::Run(None),
        args_request(seq!["-h"@] + rest) == ArgsRequest::ShowHelp,
        args_request(seq!["--help"@] + rest) == ArgsRequest::ShowHelp,
        args_request(seq!["-v"@] + rest) == ArgsRequest::ShowVersion,
        args_request(seq!["--version"@] + rest) == ArgsRequest::ShowVersion,
        args_request(seq!["-c"@]) == ArgsRequest::Run(None),
        first != "-c"@ && first != "--config"@ && first != "-h"@ && first != "--help"@ && first != "-v"@
            && first != "--version"@ ==> args_request(seq![first] + rest) == ArgsRequest::UnknownOption(first),
{
    reveal_strlit("-c");
    reveal_strlit("--config");
    reveal_strlit("-h");
    reveal_strlit("--help");
    reveal_strlit("-v");
    reveal_strlit("--version");
    assert((seq!["-h"@] + rest)[0] == "-h"@);
    assert((seq!["--help"@] + rest)[0] == "--help"@);
    assert((seq!["-v"@] + rest)[0] == "-v"@);
    assert((seq!["--version"@] + rest)[0] == "--version"@);
    assert((seq![first] + rest)[0] == first);
    assert("-h"@ != "-c"@ && "-h"@ != "--config"@) by {
        assert("-h"@[1] != "-c"@[1]);
    }
    assert("--help"@ != "-c"@ && "--help"@ != "--config"@) by {
        assert("--help"@[2] != "--config"@[2]);
    }
    assert("-v"@ != "-c"@ && "-v"@ != "--config"@ && "-v"@ != "-h"@ && "-v"@ != "--help"@) by {
        assert("-v"@[1] != "-c"@[1]);
        assert("-v"@[1] != "-h"@[1]);
    }
    assert("--version"@ != "-c"@ && "--version"@ != "--config"@ && "--version"@ != "-h"@
        && "--version"@ != "--help"@) by {
        assert("--version"@[2] != "--config"@[2]);
        assert("--version"@[2] != "--help"@[2]);
    }
}

} // verus!
