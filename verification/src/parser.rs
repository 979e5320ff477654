//! The command-line parser of a command, as `clap` describes one.

use vstd::prelude::*;
use crate::command::{CommandView, UserCommand};

verus! {

/// `clap::Command`, the description of a command line that `clap` parses
/// by. Nothing inside it is visible here: what the library says of one, it
/// says through [`spec_parser_name`] and [`spec_declared`].
#[verifier::external_type_specification]
#[verifier::external_body]
pub struct ExCommand<'help>(clap::Command<'help>);

/// The name that a `clap` command carries: what `clap::Command::get_name`
/// gives.
pub uninterp spec fn spec_parser_name(command: clap::Command<'_>) -> Seq<char>;

/// The arguments declared on a `clap` command by whoever built it, in the
/// order of their declaration: the name of each, and whether it is required.
/// The `help` and `version` flags that `clap` adds of itself are not among
/// them.
pub uninterp spec fn spec_declared(command: clap::Command<'_>) -> Seq<(Seq<char>, bool)>;

/// Calls `clap::Command::new`. Taken on trust: the command carries `name`,
/// and nothing is declared on it but what `clap` adds of itself.
#[verifier::external_body]
fn new_command<'a>(name: &String) -> (command: clap::Command<'a>)
    ensures
        spec_parser_name(command) == name@,
        spec_declared(command) == Seq::<(Seq<char>, bool)>::empty(),
{
    clap::Command::new(name.clone())
}

/// Calls `clap::Command::arg` with an argument that `clap::Arg::new` makes
/// under `name`, set to take a string and to be required or not. Taken on
/// trust: the argument is declared behind those that are there, under that
/// name and with that setting, and the command keeps its name.
#[verifier::external_body]
fn declare<'a>(command: clap::Command<'a>, name: &'a String, required: bool) -> (declared:
    clap::Command<'a>)
    ensures
        spec_parser_name(declared) == spec_parser_name(command),
        spec_declared(declared) == spec_declared(command).push((name@, required)),
{
    command.arg(
        clap::Arg::new(name.as_str()).value_parser(clap::builder::ValueParser::string()).required(
            required,
        ),
    )
}

/// What the parser of `command` declares: every positional parameter as
/// required, then every named option as not required, each under its name.
pub open spec fn spec_declarations(command: CommandView) -> Seq<(Seq<char>, bool)> {
    Seq::new(
        command.args.len() + command.options.len(),
        |i: int|
            if i < command.args.len() {
                (command.args[i].name, true)
            } else {
                (command.options[i - command.args.len()].name, false)
            },
    )
}

impl UserCommand {
    /// The `clap` parser that takes the values of this command from a
    /// command line: it carries the name of the command and declares its
    /// parameters, the positional ones first, each in its declared place.
    pub fn clap_command<'a>(&'a self) -> (parser: clap::Command<'a>)
        ensures
            spec_parser_name(parser) == self@.name,
            spec_declared(parser) == spec_declarations(self@),
    {
        let mut parser = new_command(&self.name);
        let mut i: usize = 0;
        while i < self.args.len()
            invariant
                i <= self.args.len(),
                spec_parser_name(parser) == self@.name,
                spec_declared(parser) == spec_declarations(self@).take(i as int),
            decreases self.args.len() - i,
        {
            parser = declare(parser, &self.args[i].name, true);
            i += 1;
            assert(spec_declared(parser) =~= spec_declarations(self@).take(i as int));
        }
        let mut j: usize = 0;
        while j < self.options.len()
            invariant
                j <= self.options.len(),
                spec_parser_name(parser) == self@.name,
                spec_declared(parser) == spec_declarations(self@).take(self.args.len() + j),
            decreases self.options.len() - j,
        {
            parser = declare(parser, &self.options[j].name, false);
            j += 1;
            assert(spec_declared(parser) =~= spec_declarations(self@).take(self.args.len() + j));
        }
        assert(spec_declarations(self@).take(self.args.len() + j) =~= spec_declarations(self@));
        parser
    }
}

} // verus!
