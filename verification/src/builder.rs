//! Building the description of a command, one answer at a time.
//!
//! A [`SchemaBuilder`] never asks anything itself. It says which prompt is
//! due ([`SchemaBuilder::prompt`]), takes the answer
//! ([`SchemaBuilder::step`]), and hands out the finished description once the
//! last question is answered ([`SchemaBuilder::finish`]). The order of the
//! questions is fixed: the name, the program, the positional parameters for
//! as long as the user wants another one, then the named options likewise.

use vstd::prelude::*;
use crate::command::{
    ArgView, CommandView, OptionView, UserCommand, UserCommandArg, UserCommandArgType,
    UserCommandOption, spec_args, spec_options,
};
use crate::session::{Answer, AnswerView, InteractionFailed, Prompt, PromptView, spec_texts};

verus! {

/// The question that a builder is waiting to have answered.
#[derive(Clone, Copy, Debug, PartialEq, Eq, Structural)]
pub enum BuildStage {
    /// The name under which the command is kept.
    Name,
    /// The program that the command stands for.
    Program,
    /// Whether to add a positional parameter.
    MoreArgs,
    /// The name of the positional parameter being added.
    ArgName,
    /// The kind of the positional parameter being added.
    ArgType,
    /// Whether to add a named option.
    MoreOptions,
    /// The name of the option being added.
    OptionName,
    /// The kind of the option being added.
    OptionType,
    /// Every question is answered.
    Done,
    /// The session broke off.
    Failed,
}

/// A builder as a mathematical value.
pub struct BuildState {
    pub stage: BuildStage,
    pub name: Seq<char>,
    pub program: Seq<char>,
    pub args: Seq<ArgView>,
    pub options: Seq<OptionView>,
    /// The name of the parameter whose kind is still to be asked.
    pub pending: Seq<char>,
}

impl BuildState {
    /// The state before the first question.
    pub open spec fn initial() -> BuildState {
        BuildState {
            stage: BuildStage::Name,
            name: Seq::empty(),
            program: Seq::empty(),
            args: Seq::empty(),
            options: Seq::empty(),
            pending: Seq::empty(),
        }
    }

    /// This state with the session broken off.
    pub open spec fn failed(self) -> BuildState {
        BuildState { stage: BuildStage::Failed, ..self }
    }

    /// No question is left: the description is complete or the session
    /// broke off.
    pub open spec fn finished(self) -> bool {
        self.stage == BuildStage::Done || self.stage == BuildStage::Failed
    }

    /// The state after `answer` to the question of a state that asks for the
    /// name or the program.
    pub open spec fn step_heading(self, answer: AnswerView) -> BuildState {
        match (self.stage, answer) {
            (BuildStage::Name, AnswerView::Text(text)) => BuildState {
                stage: BuildStage::Program,
                name: text,
                ..self
            },
            (BuildStage::Program, AnswerView::Text(text)) => BuildState {
                stage: BuildStage::MoreArgs,
                program: text,
                ..self
            },
            _ => self.failed(),
        }
    }

    /// The state after `answer` to a question of the round of positional
    /// parameters: "yes" to another one leads to its name, the name to the
    /// kind, and the kind adds the parameter behind those that are there and
    /// leads back to the question whether to add another; "no" leads on to
    /// the options.
    pub open spec fn step_args(self, answer: AnswerView) -> BuildState {
        match (self.stage, answer) {
            (BuildStage::MoreArgs, AnswerView::Confirm(more)) => BuildState {
                stage: if more {
                    BuildStage::ArgName
                } else {
                    BuildStage::MoreOptions
                },
                ..self
            },
            (BuildStage::ArgName, AnswerView::Text(text)) => BuildState {
                stage: BuildStage::ArgType,
                pending: text,
                ..self
            },
            (BuildStage::ArgType, AnswerView::Choice(index)) => BuildState {
                stage: BuildStage::MoreArgs,
                args: self.args.push(
                    ArgView { name: self.pending, ty: UserCommandArgType::spec_from_choice(index) },
                ),
                pending: Seq::empty(),
                ..self
            },
            _ => self.failed(),
        }
    }

    /// The state after `answer` to a question of the round of named options,
    /// which runs as the round of positional parameters does; an option is
    /// added with both alias slots empty, and "no" to another one completes
    /// the description.
    pub open spec fn step_options(self, answer: AnswerView) -> BuildState {
        match (self.stage, answer) {
            (BuildStage::MoreOptions, AnswerView::Confirm(more)) => BuildState {
                stage: if more {
                    BuildStage::OptionName
                } else {
                    BuildStage::Done
                },
                ..self
            },
            (BuildStage::OptionName, AnswerView::Text(text)) => BuildState {
                stage: BuildStage::OptionType,
                pending: text,
                ..self
            },
            (BuildStage::OptionType, AnswerView::Choice(index)) => BuildState {
                stage: BuildStage::MoreOptions,
                options: self.options.push(
                    OptionView {
                        name: self.pending,
                        short: None,
                        long: None,
                        ty: UserCommandArgType::spec_from_choice(index),
                    },
                ),
                pending: Seq::empty(),
                ..self
            },
            _ => self.failed(),
        }
    }

    /// The state after `answer` to the question that is due. An answer of
    /// another kind than the question asks for breaks the session off, as a
    /// failed one does; a finished state stays as it is.
    pub open spec fn step(self, answer: AnswerView) -> BuildState {
        match self.stage {
            BuildStage::Name | BuildStage::Program => self.step_heading(answer),
            BuildStage::MoreArgs | BuildStage::ArgName | BuildStage::ArgType => self.step_args(
                answer,
            ),
            BuildStage::MoreOptions | BuildStage::OptionName | BuildStage::OptionType => {
                self.step_options(answer)
            },
            BuildStage::Done | BuildStage::Failed => self,
        }
    }

    /// The state after the answers of `answers`, taken in order.
    pub open spec fn run(self, answers: Seq<AnswerView>) -> BuildState
        decreases answers.len(),
    {
        if answers.len() == 0 {
            self
        } else {
            self.run(answers.drop_last()).step(answers.last())
        }
    }

    /// The description that the answers so far add up to.
    pub open spec fn schema(self) -> CommandView {
        CommandView { name: self.name, program: self.program, args: self.args, options: self.options }
    }

    /// What the builder hands out: the description once every question is
    /// answered, and nothing of it before that or after a failure.
    pub open spec fn outcome(self) -> Result<CommandView, InteractionFailed> {
        if self.stage == BuildStage::Done {
            Ok(self.schema())
        } else {
            Err(InteractionFailed)
        }
    }

    /// The question that is due, if any.
    pub open spec fn prompt(self) -> Option<PromptView> {
        match self.stage {
            BuildStage::Name => Some(PromptView::Text { label: "name"@ }),
            BuildStage::Program => Some(PromptView::Text { label: "exec"@ }),
            BuildStage::MoreArgs => Some(
                PromptView::Confirm {
                    label: if self.args.len() == 0 {
                        "Add arguments?"@
                    } else {
                        "Add another agument?"@
                    },
                },
            ),
            BuildStage::MoreOptions => Some(
                PromptView::Confirm {
                    label: if self.options.len() == 0 {
                        "Add options?"@
                    } else {
                        "Add another agument?"@
                    },
                },
            ),
            BuildStage::ArgName | BuildStage::OptionName => Some(
                PromptView::Text { label: "Argument name"@ },
            ),
            BuildStage::ArgType | BuildStage::OptionType => Some(
                PromptView::Choice {
                    label: "Argument type"@,
                    items: UserCommandArgType::spec_choice_labels(),
                },
            ),
            BuildStage::Done | BuildStage::Failed => None,
        }
    }
}

/// The builder of one command description.
pub struct SchemaBuilder {
    stage: BuildStage,
    name: String,
    program: String,
    args: Vec<UserCommandArg>,
    options: Vec<UserCommandOption>,
    pending: String,
}

impl View for SchemaBuilder {
    type V = BuildState;

    closed spec fn view(&self) -> BuildState {
        BuildState {
            stage: self.stage,
            name: self.name@,
            program: self.program@,
            args: spec_args(self.args@),
            options: spec_options(self.options@),
            pending: self.pending@,
        }
    }
}

impl SchemaBuilder {
    /// A builder that has asked nothing yet.
    pub fn new() -> (builder: SchemaBuilder)
        ensures
            builder@ == BuildState::initial(),
    {
        let builder = SchemaBuilder {
            stage: BuildStage::Name,
            name: String::new(),
            program: String::new(),
            args: Vec::new(),
            options: Vec::new(),
            pending: String::new(),
        };
        assert(spec_args(builder.args@) =~= Seq::empty());
        assert(spec_options(builder.options@) =~= Seq::empty());
        builder
    }

    /// The prompt to put next, or `None` where no question is left.
    pub fn prompt(&self) -> (prompt: Option<Prompt>)
        ensures
            match prompt {
                Some(prompt) => self@.prompt() == Some(prompt@),
                None => self@.prompt().is_none(),
            },
    {
        match self.stage {
            BuildStage::Name => Some(Prompt::Text { label: String::from_str("name") }),
            BuildStage::Program => Some(Prompt::Text { label: String::from_str("exec") }),
            BuildStage::MoreArgs => {
                let label = if self.args.len() == 0 {
                    String::from_str("Add arguments?")
                } else {
                    String::from_str("Add another agument?")
                };
                Some(Prompt::Confirm { label })
            },
            BuildStage::MoreOptions => {
                let label = if self.options.len() == 0 {
                    String::from_str("Add options?")
                } else {
                    String::from_str("Add another agument?")
                };
                Some(Prompt::Confirm { label })
            },
            BuildStage::ArgName | BuildStage::OptionName => Some(
                Prompt::Text { label: String::from_str("Argument name") },
            ),
            BuildStage::ArgType | BuildStage::OptionType => Some(
                Prompt::Choice {
                    label: String::from_str("Argument type"),
                    items: UserCommandArgType::choice_labels(),
                },
            ),
            BuildStage::Done | BuildStage::Failed => None,
        }
    }

    /// Takes the answer to the prompt that was due.
    pub fn step(self, answer: Answer) -> (next: SchemaBuilder)
        ensures
            next@ == self@.step(answer@),
    {
        let mut next = self;
        match (next.stage, answer) {
            (BuildStage::Done, _) | (BuildStage::Failed, _) => {},
            (BuildStage::Name, Answer::Text(text)) => {
                next.name = text;
                next.stage = BuildStage::Program;
            },
            (BuildStage::Program, Answer::Text(text)) => {
                next.program = text;
                next.stage = BuildStage::MoreArgs;
            },
            (BuildStage::MoreArgs, Answer::Confirm(more)) => {
                next.stage = if more {
                    BuildStage::ArgName
                } else {
                    BuildStage::MoreOptions
                };
            },
            (BuildStage::ArgName, Answer::Text(text)) => {
                next.pending = text;
                next.stage = BuildStage::ArgType;
            },
            (BuildStage::ArgType, Answer::Choice(index)) => {
                let mut name = String::new();
                std::mem::swap(&mut next.pending, &mut name);
                next.args.push(UserCommandArg { name, ty: UserCommandArgType::from_choice(index) });
                next.stage = BuildStage::MoreArgs;
                assert(spec_args(next.args@) =~= spec_args(self.args@).push(next.args@.last()@));
            },
            (BuildStage::MoreOptions, Answer::Confirm(more)) => {
                next.stage = if more {
                    BuildStage::OptionName
                } else {
                    BuildStage::Done
                };
            },
            (BuildStage::OptionName, Answer::Text(text)) => {
                next.pending = text;
                next.stage = BuildStage::OptionType;
            },
            (BuildStage::OptionType, Answer::Choice(index)) => {
                let mut name = String::new();
                std::mem::swap(&mut next.pending, &mut name);
                next.options.push(
                    UserCommandOption {
                        name,
                        short: None,
                        long: None,
                        ty: UserCommandArgType::from_choice(index),
                    },
                );
                next.stage = BuildStage::MoreOptions;
                assert(spec_options(next.options@) =~= spec_options(self.options@).push(
                    next.options@.last()@,
                ));
            },
            _ => {
                next.stage = BuildStage::Failed;
            },
        }
        next
    }

    /// Hands out the description, where every question was answered.
    pub fn finish(self) -> (outcome: Result<UserCommand, InteractionFailed>)
        ensures
            match outcome {
                Ok(command) => self@.outcome() == Ok::<CommandView, InteractionFailed>(command@),
                Err(_) => self@.outcome().is_err(),
            },
    {
        match self.stage {
            BuildStage::Done => Ok(
                UserCommand {
                    name: self.name,
                    program: self.program,
                    args: self.args,
                    options: self.options,
                },
            ),
            _ => Err(InteractionFailed),
        }
    }
}

/// A parameter as a session enters it: its name, and the position picked in
/// the list of kinds.
pub type Entry = (Seq<char>, int);

/// The answers of a round in which the user adds the parameters of `entries`
/// one after the other and then declines to add another.
pub open spec fn spec_round(entries: Seq<Entry>) -> Seq<AnswerView>
    decreases entries.len(),
{
    if entries.len() == 0 {
        seq![AnswerView::Confirm(false)]
    } else {
        seq![
            AnswerView::Confirm(true),
            AnswerView::Text(entries[0].0),
            AnswerView::Choice(entries[0].1),
        ] + spec_round(entries.drop_first())
    }
}

/// The answers of a whole session: the name, the program, a round for the
/// positional parameters and a round for the named options.
pub open spec fn spec_session(
    name: Seq<char>,
    program: Seq<char>,
    args: Seq<Entry>,
    options: Seq<Entry>,
) -> Seq<AnswerView> {
    seq![AnswerView::Text(name), AnswerView::Text(program)] + spec_round(args) + spec_round(
        options,
    )
}

/// The positional parameters that the entries of a round stand for.
pub open spec fn spec_entered_args(entries: Seq<Entry>) -> Seq<ArgView> {
    entries.map_values(
        |entry: Entry| ArgView { name: entry.0, ty: UserCommandArgType::spec_from_choice(entry.1) },
    )
}

/// The named options that the entries of a round stand for.
pub open spec fn spec_entered_options(entries: Seq<Entry>) -> Seq<OptionView> {
    entries.map_values(
        |entry: Entry|
            OptionView {
                name: entry.0,
                short: None,
                long: None,
                ty: UserCommandArgType::spec_from_choice(entry.1),
            },
    )
}

/// Running over two lists of answers, one behind the other, is running over
/// the first and then over the second.
pub proof fn lemma_run_concat(state: BuildState, first: Seq<AnswerView>, second: Seq<AnswerView>)
    ensures
        state.run(first + second) == state.run(first).run(second),
    decreases second.len(),
{
    if second.len() == 0 {
        assert(first + second =~= first);
    } else {
        assert((first + second).drop_last() =~= first + second.drop_last());
        lemma_run_concat(state, first, second.drop_last());
    }
}

proof fn lemma_run_one(state: BuildState, answer: AnswerView)
    ensures
        state.run(seq![answer]) == state.step(answer),
{
    let answers = seq![answer];
    assert(answers.drop_last() =~= Seq::empty());
    assert(state.run(answers.drop_last()) == state);
}

proof fn lemma_run_push(state: BuildState, answers: Seq<AnswerView>, answer: AnswerView)
    ensures
        state.run(answers.push(answer)) == state.run(answers).step(answer),
{
    assert(answers.push(answer).drop_last() =~= answers);
}

/// A finished state stays as it is, whatever answers follow.
pub proof fn lemma_finished_stays(state: BuildState, answers: Seq<AnswerView>)
    requires
        state.finished(),
    ensures
        state.run(answers) == state,
    decreases answers.len(),
{
    if answers.len() > 0 {
        lemma_finished_stays(state, answers.drop_last());
    }
}

proof fn lemma_round_of_args(state: BuildState, entries: Seq<Entry>)
    requires
        state.stage == BuildStage::MoreArgs,
        state.pending == Seq::<char>::empty(),
    ensures
        state.run(spec_round(entries)) == (BuildState {
            stage: BuildStage::MoreOptions,
            args: state.args + spec_entered_args(entries),
            ..state
        }),
    decreases entries.len(),
{
    if entries.len() == 0 {
        lemma_run_one(state, AnswerView::Confirm(false));
        assert(state.args + spec_entered_args(entries) =~= state.args);
    } else {
        let more = AnswerView::Confirm(true);
        let name = AnswerView::Text(entries[0].0);
        let kind = AnswerView::Choice(entries[0].1);
        let head = seq![more, name, kind];
        let rest = entries.drop_first();
        assert(head =~= seq![more].push(name).push(kind));
        lemma_run_one(state, more);
        lemma_run_push(state, seq![more], name);
        lemma_run_push(state, seq![more].push(name), kind);
        let next = state.step(more).step(name).step(kind);
        assert(state.run(head) == next);
        lemma_run_concat(state, head, spec_round(rest));
        lemma_round_of_args(next, rest);
        assert(next.args + spec_entered_args(rest) =~= state.args + spec_entered_args(entries));
    }
}

proof fn lemma_round_of_options(state: BuildState, entries: Seq<Entry>)
    requires
        state.stage == BuildStage::MoreOptions,
        state.pending == Seq::<char>::empty(),
    ensures
        state.run(spec_round(entries)) == (BuildState {
            stage: BuildStage::Done,
            options: state.options + spec_entered_options(entries),
            ..state
        }),
    decreases entries.len(),
{
    if entries.len() == 0 {
        lemma_run_one(state, AnswerView::Confirm(false));
        assert(state.options + spec_entered_options(entries) =~= state.options);
    } else {
        let more = AnswerView::Confirm(true);
        let name = AnswerView::Text(entries[0].0);
        let kind = AnswerView::Choice(entries[0].1);
        let head = seq![more, name, kind];
        let rest = entries.drop_first();
        assert(head =~= seq![more].push(name).push(kind));
        lemma_run_one(state, more);
        lemma_run_push(state, seq![more], name);
        lemma_run_push(state, seq![more].push(name), kind);
        let next = state.step(more).step(name).step(kind);
        assert(state.run(head) == next);
        lemma_run_concat(state, head, spec_round(rest));
        lemma_round_of_options(next, rest);
        assert(next.options + spec_entered_options(rest) =~= state.options
            + spec_entered_options(entries));
    }
}

/// A session that enters a name, a program, any positional parameters and
/// any named options builds exactly the description of what was entered:
/// every parameter is there, none is added, and each round keeps the order
/// in which its parameters were entered.
pub proof fn law_session_builds_what_was_entered(
    name: Seq<char>,
    program: Seq<char>,
    args: Seq<Entry>,
    options: Seq<Entry>,
)
    ensures
        UserCommand::spec_from_cli(spec_session(name, program, args, options)) == Ok::<
            CommandView,
            InteractionFailed,
        >(
            CommandView {
                name,
                program,
                args: spec_entered_args(args),
                options: spec_entered_options(options),
            },
        ),
{
    let start = BuildState::initial();
    let heading = seq![AnswerView::Text(name), AnswerView::Text(program)];
    assert(heading =~= seq![AnswerView::Text(name)].push(AnswerView::Text(program)));
    lemma_run_one(start, AnswerView::Text(name));
    lemma_run_push(start, seq![AnswerView::Text(name)], AnswerView::Text(program));
    let named = start.run(heading);
    lemma_run_concat(start, heading, spec_round(args));
    lemma_round_of_args(named, args);
    let with_args = named.run(spec_round(args));
    lemma_run_concat(start, heading + spec_round(args), spec_round(options));
    lemma_round_of_options(with_args, options);
    assert(named.args + spec_entered_args(args) =~= spec_entered_args(args));
    assert(with_args.options + spec_entered_options(options) =~= spec_entered_options(options));
}

/// A failure in answer to a question that is due leaves no description,
/// whatever was answered before it and whatever follows.
pub proof fn law_failure_leaves_nothing(before: Seq<AnswerView>, after: Seq<AnswerView>)
    requires
        !BuildState::initial().run(before).finished(),
    ensures
        UserCommand::spec_from_cli(before.push(AnswerView::Failed) + after).is_err(),
{
    let start = BuildState::initial();
    lemma_run_push(start, before, AnswerView::Failed);
    let broken = start.run(before.push(AnswerView::Failed));
    assert(broken.stage == BuildStage::Failed);
    lemma_run_concat(start, before.push(AnswerView::Failed), after);
    lemma_finished_stays(broken, after);
}

/// Once every question is answered, further answers change nothing.
pub proof fn law_complete_session_is_final(answers: Seq<AnswerView>, further: Seq<AnswerView>)
    requires
        UserCommand::spec_from_cli(answers).is_ok(),
    ensures
        UserCommand::spec_from_cli(answers + further) == UserCommand::spec_from_cli(answers),
{
    let start = BuildState::initial();
    lemma_run_concat(start, answers, further);
    lemma_finished_stays(start.run(answers), further);
}

} // verus!
