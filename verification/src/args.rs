//! The command line: what the arguments ask for, and the texts that answer a
//! request for help or for the version.

use vstd::prelude::*;
use vstd::string::StringExecFns;
use crate::text::chars_of;

verus! {

/// What one argument of the command line is.
#[derive(Debug, Clone, Copy, PartialEq, Eq, Structural)]
pub enum ArgKind {
    /// `-h` or `--help`.
    Help,
    /// `-v`, `-V` or `--version`.
    Version,
    /// Any other argument that begins with `--`.
    Unexpected,
    /// Anything else: the path of an input file.
    File,
}

/// The kind of `arg`.
pub open spec fn arg_kind(arg: Seq<char>) -> ArgKind {
    if arg == "-h"@ || arg == "--help"@ {
        ArgKind::Help
    } else if arg == "-v"@ || arg == "-V"@ || arg == "--version"@ {
        ArgKind::Version
    } else if arg.len() >= 2 && arg[0] == '-' && arg[1] == '-' {
        ArgKind::Unexpected
    } else {
        ArgKind::File
    }
}

/// Whether an argument of `kind` is among `argv`.
pub open spec fn has_kind(argv: Seq<Seq<char>>, kind: ArgKind) -> bool {
    exists|i: int| 0 <= i < argv.len() && arg_kind(#[trigger] argv[i]) == kind
}

/// The predicate that holds of the arguments that name a file.
pub open spec fn names_file() -> spec_fn(Seq<char>) -> bool {
    |arg: Seq<char>| arg_kind(arg) == ArgKind::File
}

/// The characters of each string of `strings`.
pub open spec fn strings_view(strings: Seq<String>) -> Seq<Seq<char>> {
    strings.map_values(|s: String| s@)
}

/// What the command line asks the program to do.
#[derive(Debug, Clone, Copy, PartialEq, Eq, Structural)]
pub enum Command {
    /// Print the help and leave.
    Help,
    /// Print the version and leave.
    Version,
    /// Run the exercise.
    Run,
}

/// Why a command line was refused.
#[derive(Debug, PartialEq, Eq)]
pub enum ArgsError {
    /// An argument begins with `--` and is neither `--help` nor `--version`.
    Unexpected(String),
}

impl ArgsError {
    /// The message for the user: `unexpected argument: ` and the argument.
    pub fn message(&self) -> (message: String)
        ensures
            self matches ArgsError::Unexpected(arg) && message@ == "unexpected argument: "@
                + arg@,
    {
        match self {
            ArgsError::Unexpected(arg) => {
                let mut message = String::from_str("unexpected argument: ");
                message.append(arg.as_str());
                message
            },
        }
    }
}

/// The parsed command line.
#[derive(Debug, PartialEq, Eq)]
pub struct Args {
    /// Whether help was asked for.
    pub display_help: bool,
    /// Whether the version was asked for.
    pub display_version: bool,
    /// The input files, in the order given.
    pub files: Vec<String>,
}

impl Default for Args {
    /// Nothing asked for and no files.
    fn default() -> (args: Self)
        ensures
            !args.display_help,
            !args.display_version,
            args.files@.len() == 0,
    {
        Args { display_help: false, display_version: false, files: Vec::new() }
    }
}

/// Whether `chars` holds exactly the characters of `text`.
fn is_text(chars: &Vec<char>, text: &str) -> (same: bool)
    ensures
        same == (chars@ == text@),
{
    let other = chars_of(text);
    if chars.len() != other.len() {
        return false;
    }
    let mut i: usize = 0;
    while i < chars.len()
        invariant
            i <= chars@.len(),
            chars@.len() == other@.len(),
            other@ == text@,
            forall|j: int| 0 <= j < i ==> chars@[j] == other@[j],
        decreases chars@.len() - i,
    {
        if chars[i] != other[i] {
            return false;
        }
        i = i + 1;
    }
    proof {
        assert(chars@ =~= other@);
    }
    true
}

/// The kind of the argument `arg`.
pub fn classify_arg(arg: &str) -> (kind: ArgKind)
    ensures
        kind == arg_kind(arg@),
{
    let chars = chars_of(arg);
    if is_text(&chars, "-h") || is_text(&chars, "--help") {
        ArgKind::Help
    } else if is_text(&chars, "-v") || is_text(&chars, "-V") || is_text(&chars, "--version") {
        ArgKind::Version
    } else if chars.len() >= 2 && chars[0] == '-' && chars[1] == '-' {
        ArgKind::Unexpected
    } else {
        ArgKind::File
    }
}

impl Args {
    /// Parses the arguments that follow the program's name. The command line
    /// is refused exactly if an argument begins with `--` and is neither
    /// `--help` nor `--version`, and the error names the first such argument.
    /// Otherwise help and version are asked for exactly if one of their
    /// spellings is among the arguments, and the files are the remaining
    /// arguments, in order.
    pub fn parse(argv: Vec<String>) -> (parsed: Result<Args, ArgsError>)
        ensures
            parsed is Err == has_kind(strings_view(argv@), ArgKind::Unexpected),
            parsed matches Ok(args) ==> {
                &&& args.display_help == has_kind(strings_view(argv@), ArgKind::Help)
                &&& args.display_version == has_kind(strings_view(argv@), ArgKind::Version)
                &&& strings_view(args.files@) == strings_view(argv@).filter(names_file())
            },
            parsed matches Err(ArgsError::Unexpected(arg)) ==> exists|i: int|
                0 <= i < argv@.len() && arg@ == #[trigger] strings_view(argv@)[i] && arg_kind(arg@)
                    == ArgKind::Unexpected && !has_kind(
                    strings_view(argv@).take(i),
                    ArgKind::Unexpected,
                ),
    {
        let ghost all = strings_view(argv@);
        let mut display_help = false;
        let mut display_version = false;
        let mut files: Vec<String> = Vec::new();
        let mut i: usize = 0;
        proof {
            reveal(Seq::filter);
            assert(all.take(0).filter(names_file()) == Seq::<Seq<char>>::empty());
            assert(strings_view(files@) == Seq::<Seq<char>>::empty());
        }
        while i < argv.len()
            invariant
                i <= argv@.len(),
                all == strings_view(argv@),
                all.len() == argv@.len(),
                display_help == has_kind(all.take(i as int), ArgKind::Help),
                display_version == has_kind(all.take(i as int), ArgKind::Version),
                !has_kind(all.take(i as int), ArgKind::Unexpected),
                strings_view(files@) == all.take(i as int).filter(names_file()),
            decreases argv@.len() - i,
        {
            let ghost before = all.take(i as int);
            let ghost after = all.take(i + 1);
            let kind = classify_arg(argv[i].as_str());
            proof {
                reveal(Seq::filter);
                assert(after.drop_last() == before);
                assert(after.last() == all[i as int]);
                assert(after[i as int] == all[i as int]);
                assert forall|k: ArgKind| #[trigger]
                    has_kind(after, k) == (has_kind(before, k) || arg_kind(all[i as int])
                        == k) by {
                    if has_kind(before, k) {
                        let j = choose|j: int|
                            0 <= j < before.len() && arg_kind(#[trigger] before[j]) == k;
                        assert(after[j] == before[j]);
                    }
                    if has_kind(after, k) {
                        let j = choose|j: int|
                            0 <= j < after.len() && arg_kind(#[trigger] after[j]) == k;
                        if j < i {
                            assert(before[j] == after[j]);
                        }
                    }
                }
            }
            match kind {
                ArgKind::Help => {
                    display_help = true;
                },
                ArgKind::Version => {
                    display_version = true;
                },
                ArgKind::Unexpected => {
                    let arg = argv[i].clone();
                    proof {
                        assert(all.take(all.len() as int) == all);
                        assert(all[i as int] == argv@[i as int]@);
                    }
                    return Err(ArgsError::Unexpected(arg));
                },
                ArgKind::File => {
                    let ghost kept = files@;
                    let arg = argv[i].clone();
                    files.push(arg);
                    proof {
                        assert(strings_view(files@) == strings_view(kept).push(all[i as int]));
                    }
                },
            }
            i = i + 1;
        }
        proof {
            assert(all.take(all.len() as int) == all);
        }
        Ok(Args { display_help, display_version, files })
    }

    /// What the command line asks for: help goes before the version, and the
    /// version before the exercise.
    pub fn command(&self) -> (command: Command)
        ensures
            command == if self.display_help {
                Command::Help
            } else if self.display_version {
                Command::Version
            } else {
                Command::Run
            },
    {
        if self.display_help {
            Command::Help
        } else if self.display_version {
            Command::Version
        } else {
            Command::Run
        }
    }
}

/// The help: the program's name and version, its description, and how it is
/// called under the name `bin`.
pub fn help_text(name: &str, version: &str, description: &str, bin: &str) -> (help: String)
    ensures
        help@ == name@ + " "@ + version@ + "\n"@ + description@ + "\n\nUSAGE:\n    "@ + bin@
            + " [OPTIONS] [files]...\n\nARGS:\n    <files>...    The input files\n\nOPTIONS:\n    -h, --help                   Prints help information\n    -v, -V, --version            Prints version information"@,
{
    let mut help = String::from_str(name);
    help.append(" ");
    help.append(version);
    help.append("\n");
    help.append(description);
    help.append("\n\nUSAGE:\n    ");
    help.append(bin);
    help.append(
        " [OPTIONS] [files]...\n\nARGS:\n    <files>...    The input files\n\nOPTIONS:\n    -h, --help                   Prints help information\n    -v, -V, --version            Prints version information",
    );
    help
}

/// The version line: the name that the program is called under, a blank, and
/// the version.
pub fn version_text(bin: &str, version: &str) -> (line: String)
    ensures
        line@ == bin@ + " "@ + version@,
{
    let mut line = String::from_str(bin);
    line.append(" ");
    line.append(version);
    line
}

} // verus!
