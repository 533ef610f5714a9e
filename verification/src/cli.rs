//! The `dock` command line: which subcommand was asked for.

use vstd::prelude::*;

verus! {

/// What a `dock` command line asks for.
#[derive(Clone, Debug, PartialEq, Eq)]
pub enum DockCommand {
    /// No subcommand was given.
    MissingSubcommand,
    /// Collapse or restore the dock column.
    Toggle,
    /// The help text was asked for.
    Help,
    /// A subcommand that does not exist.
    UnknownSubcommand(String),
    /// `toggle` followed by an argument it does not take.
    UnexpectedArgument(String),
}

/// One of the words that ask for the help text.
pub open spec fn is_help_word(word: String) -> bool {
    word@ == "--help"@ || word@ == "-h"@ || word@ == "help"@
}

/// `toggle` is not a help word.
proof fn lemma_command_words_differ()
    ensures
        "toggle"@ != "--help"@,
        "toggle"@ != "-h"@,
        "toggle"@ != "help"@,
{
    reveal_strlit("toggle");
    reveal_strlit("--help");
    reveal_strlit("-h");
    reveal_strlit("help");
    assert("toggle"@[0] != "--help"@[0]);
    assert("toggle"@.len() != "-h"@.len());
    assert("toggle"@.len() != "help"@.len());
}

/// The command that `args`, the words after `dock`, ask for.
pub open spec fn spec_parse_dock_command(args: Seq<String>) -> DockCommand {
    if args.len() == 0 {
        DockCommand::MissingSubcommand
    } else if args[0]@ == "toggle"@ {
        if args.len() > 1 {
            DockCommand::UnexpectedArgument(args[1])
        } else {
            DockCommand::Toggle
        }
    } else if args[0]@ == "--help"@ || args[0]@ == "-h"@ || args[0]@ == "help"@ {
        DockCommand::Help
    } else {
        DockCommand::UnknownSubcommand(args[0])
    }
}

/// The command that `args`, the words after `dock`, ask for.
pub fn parse_dock_command(args: &Vec<String>) -> (c: DockCommand)
    ensures
        c == spec_parse_dock_command(args@),
        c == DockCommand::MissingSubcommand <==> args@.len() == 0,
        c == DockCommand::Toggle <==> (args@.len() == 1 && args@[0]@ == "toggle"@),
        (args@.len() >= 2 && args@[0]@ == "toggle"@) ==> c == DockCommand::UnexpectedArgument(
            args@[1],
        ),
        (args@.len() >= 1 && is_help_word(args@[0])) ==> c == DockCommand::Help,
        c matches DockCommand::UnknownSubcommand(word) ==> word == args@[0] && !is_help_word(word)
            && word@ != "toggle"@,
{
    proof {
        lemma_command_words_differ();
    }
    if args.len() == 0 {
        return DockCommand::MissingSubcommand;
    }
    let subcommand = &args[0];
    if *subcommand == "toggle".to_owned() {
        if args.len() > 1 {
            DockCommand::UnexpectedArgument(args[1].clone())
        } else {
            DockCommand::Toggle
        }
    } else if *subcommand == "--help".to_owned() || *subcommand == "-h".to_owned() || *subcommand
        == "help".to_owned() {
        DockCommand::Help
    } else {
        DockCommand::UnknownSubcommand(subcommand.clone())
    }
}

/// `toggle` takes no arguments: followed by any word it ends in an error
/// that names that word, exits with 2 without reaching the server, and
/// prints no help; alone, it is the toggle the server decides.
pub proof fn lemma_toggle_takes_no_arguments(args: Seq<String>)
    requires
        args.len() >= 1,
        args[0]@ == "toggle"@,
    ensures
        args.len() >= 2 ==> spec_parse_dock_command(args) == DockCommand::UnexpectedArgument(
            args[1],
        ),
        args.len() >= 2 ==> spec_parse_dock_command(args).spec_exit_code() == Some(2i32),
        args.len() >= 2 ==> !spec_parse_dock_command(args).spec_shows_help(),
        args.len() == 1 ==> spec_parse_dock_command(args) == DockCommand::Toggle,
        args.len() == 1 ==> spec_parse_dock_command(args).spec_exit_code() is None,
{
}

/// Each help word asks for the help text, whatever follows it, and ends
/// with status 0.
pub proof fn lemma_help_words(args: Seq<String>)
    requires
        args.len() >= 1,
        is_help_word(args[0]),
    ensures
        spec_parse_dock_command(args) == DockCommand::Help,
        spec_parse_dock_command(args).spec_exit_code() == Some(0i32),
        spec_parse_dock_command(args).spec_shows_help(),
{
    lemma_command_words_differ();
}

/// A missing or unknown subcommand is an error: it prints the help text and
/// exits with 2; an unknown one is reported by its own word.
pub proof fn lemma_bad_subcommands(args: Seq<String>)
    ensures
        args.len() == 0 ==> spec_parse_dock_command(args) == DockCommand::MissingSubcommand
            && spec_parse_dock_command(args).spec_exit_code() == Some(2i32)
            && spec_parse_dock_command(args).spec_shows_help(),
        (args.len() >= 1 && args[0]@ != "toggle"@ && !is_help_word(args[0]))
            ==> spec_parse_dock_command(args) == DockCommand::UnknownSubcommand(args[0])
            && spec_parse_dock_command(args).spec_exit_code() == Some(2i32)
            && spec_parse_dock_command(args).spec_shows_help(),
{
}

impl DockCommand {
    /// The help text is printed for a missing or unknown subcommand, and when
    /// asked for.
    pub open spec fn spec_shows_help(&self) -> bool {
        match self {
            DockCommand::MissingSubcommand | DockCommand::Help | DockCommand::UnknownSubcommand(
                _,
            ) => true,
            _ => false,
        }
    }

    /// The exit status the command ends with without reaching the server:
    /// 0 for help asked for, 2 for a command line in error, and `None` for a
    /// toggle, whose status the server's answer decides.
    pub open spec fn spec_exit_code(&self) -> Option<i32> {
        match self {
            DockCommand::Toggle => None,
            DockCommand::Help => Some(0),
            _ => Some(2),
        }
    }

    /// Whether the help text is printed.
    pub fn shows_help(&self) -> (b: bool)
        ensures
            b == self.spec_shows_help(),
    {
        match self {
            DockCommand::MissingSubcommand | DockCommand::Help | DockCommand::UnknownSubcommand(
                _,
            ) => true,
            _ => false,
        }
    }

    /// The exit status the command ends with without reaching the server.
    pub fn exit_code(&self) -> (r: Option<i32>)
        ensures
            r == self.spec_exit_code(),
    {
        match self {
            DockCommand::Toggle => None,
            DockCommand::Help => Some(0),
            _ => Some(2),
        }
    }
}

} // verus!
