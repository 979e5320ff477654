//! The typed description of a command and of its parameters.

use vstd::prelude::*;
use crate::builder::{BuildState, SchemaBuilder};
use crate::session::{Answer, AnswerView, InteractionFailed, spec_answers, spec_texts};

verus! {

/// The kind of value a parameter is meant to hold.
///
/// The kind is a tag only: values are always carried as text and are never
/// checked against it.
#[derive(Clone, Copy, Debug, PartialEq, Eq, Structural)]
pub enum UserCommandArgType {
    Other,
    StringArg,
    IntArg,
    FloatArg,
    FileArg,
    PathArg,
}

impl UserCommandArgType {
    /// The kinds in the order in which they are offered for selection.
    pub open spec fn spec_choices() -> Seq<UserCommandArgType> {
        seq![
            UserCommandArgType::StringArg,
            UserCommandArgType::IntArg,
            UserCommandArgType::FloatArg,
            UserCommandArgType::FileArg,
            UserCommandArgType::PathArg,
            UserCommandArgType::Other,
        ]
    }

    /// The kind that stands at `index` in the selection list, `Other` for an
    /// index past its end.
    pub open spec fn spec_from_choice(index: int) -> UserCommandArgType {
        if 0 <= index < Self::spec_choices().len() {
            Self::spec_choices()[index]
        } else {
            UserCommandArgType::Other
        }
    }

    /// The label under which a kind is offered.
    pub open spec fn spec_label(self) -> Seq<char> {
        match self {
            UserCommandArgType::StringArg => "string"@,
            UserCommandArgType::IntArg => "int"@,
            UserCommandArgType::FloatArg => "float"@,
            UserCommandArgType::FileArg => "file"@,
            UserCommandArgType::PathArg => "path"@,
            UserCommandArgType::Other => "other"@,
        }
    }

    /// The labels of the kinds in the order in which they are offered.
    pub open spec fn spec_choice_labels() -> Seq<Seq<char>> {
        Self::spec_choices().map_values(|ty: UserCommandArgType| ty.spec_label())
    }

    /// The kinds in the order in which they are offered for selection.
    pub fn choices() -> (table: Vec<UserCommandArgType>)
        ensures
            table@ == Self::spec_choices(),
    {
        let table = vec![
            UserCommandArgType::StringArg,
            UserCommandArgType::IntArg,
            UserCommandArgType::FloatArg,
            UserCommandArgType::FileArg,
            UserCommandArgType::PathArg,
            UserCommandArgType::Other,
        ];
        assert(table@ =~= Self::spec_choices());
        table
    }

    /// The kind picked by the answer `index` to a selection among
    /// [`Self::choice_labels`]; `Other` where the index names none of them.
    pub fn from_choice(index: usize) -> (ty: UserCommandArgType)
        ensures
            ty == Self::spec_from_choice(index as int),
    {
        let table = Self::choices();
        if index < table.len() {
            table[index]
        } else {
            UserCommandArgType::Other
        }
    }

    /// The labels to offer for selection, in order: a session answers with
    /// the position of the label picked, which [`Self::from_choice`] takes.
    pub fn choice_labels() -> (labels: Vec<String>)
        ensures
            spec_texts(labels@) == Self::spec_choice_labels(),
    {
        let table = Self::choices();
        let mut labels: Vec<String> = Vec::new();
        let mut i: usize = 0;
        while i < table.len()
            invariant
                i <= table.len(),
                table@ == Self::spec_choices(),
                labels@.len() == i,
                forall|k: int| 0 <= k < i ==> (#[trigger] labels@[k])@ == table@[k].spec_label(),
            decreases table.len() - i,
        {
            labels.push(table[i].label());
            i += 1;
        }
        assert(spec_texts(labels@) =~= Self::spec_choice_labels());
        labels
    }

    /// The label under which this kind is offered.
    pub fn label(self) -> (text: String)
        ensures
            text@ == self.spec_label(),
    {
        match self {
            UserCommandArgType::StringArg => String::from_str("string"),
            UserCommandArgType::IntArg => String::from_str("int"),
            UserCommandArgType::FloatArg => String::from_str("float"),
            UserCommandArgType::FileArg => String::from_str("file"),
            UserCommandArgType::PathArg => String::from_str("path"),
            UserCommandArgType::Other => String::from_str("other"),
        }
    }
}

/// One required parameter, identified by its position.
#[derive(Debug, PartialEq, Eq)]
pub struct UserCommandArg {
    pub name: String,
    pub ty: UserCommandArgType,
}

/// A [`UserCommandArg`] as a mathematical value.
pub struct ArgView {
    pub name: Seq<char>,
    pub ty: UserCommandArgType,
}

impl View for UserCommandArg {
    type V = ArgView;

    open spec fn view(&self) -> ArgView {
        ArgView { name: self.name@, ty: self.ty }
    }
}

impl Clone for UserCommandArg {
    fn clone(&self) -> (copy: Self)
        ensures
            copy@ == self@,
    {
        UserCommandArg { name: self.name.clone(), ty: self.ty }
    }
}

/// One optional parameter, identified by its name.
///
/// `short` and `long` are slots for alternative spellings of the name.
#[derive(Debug, PartialEq, Eq)]
pub struct UserCommandOption {
    pub name: String,
    pub short: Option<String>,
    pub long: Option<String>,
    pub ty: UserCommandArgType,
}

/// A [`UserCommandOption`] as a mathematical value.
pub struct OptionView {
    pub name: Seq<char>,
    pub short: Option<Seq<char>>,
    pub long: Option<Seq<char>>,
    pub ty: UserCommandArgType,
}

/// The text of an optional string.
pub open spec fn spec_optional_text(text: Option<String>) -> Option<Seq<char>> {
    match text {
        Some(text) => Some(text@),
        None => None,
    }
}

fn clone_optional_text(text: &Option<String>) -> (copy: Option<String>)
    ensures
        spec_optional_text(copy) == spec_optional_text(*text),
{
    match text {
        Some(text) => Some(text.clone()),
        None => None,
    }
}

impl View for UserCommandOption {
    type V = OptionView;

    open spec fn view(&self) -> OptionView {
        OptionView {
            name: self.name@,
            short: spec_optional_text(self.short),
            long: spec_optional_text(self.long),
            ty: self.ty,
        }
    }
}

impl Clone for UserCommandOption {
    fn clone(&self) -> (copy: Self)
        ensures
            copy@ == self@,
    {
        UserCommandOption {
            name: self.name.clone(),
            short: clone_optional_text(&self.short),
            long: clone_optional_text(&self.long),
            ty: self.ty,
        }
    }
}

/// The positional parameters of a list, each as a mathematical value.
pub open spec fn spec_args(args: Seq<UserCommandArg>) -> Seq<ArgView> {
    args.map_values(|arg: UserCommandArg| arg@)
}

/// The named options of a list, each as a mathematical value.
pub open spec fn spec_options(options: Seq<UserCommandOption>) -> Seq<OptionView> {
    options.map_values(|option: UserCommandOption| option@)
}

/// The description of one command: the name under which it is kept, the
/// program it stands for, its positional parameters in the order in which
/// they are passed, and its named options.
#[derive(Debug, PartialEq, Eq)]
pub struct UserCommand {
    pub name: String,
    pub program: String,
    pub args: Vec<UserCommandArg>,
    pub options: Vec<UserCommandOption>,
}

/// A [`UserCommand`] as a mathematical value.
pub struct CommandView {
    pub name: Seq<char>,
    pub program: Seq<char>,
    pub args: Seq<ArgView>,
    pub options: Seq<OptionView>,
}

impl View for UserCommand {
    type V = CommandView;

    open spec fn view(&self) -> CommandView {
        CommandView {
            name: self.name@,
            program: self.program@,
            args: spec_args(self.args@),
            options: spec_options(self.options@),
        }
    }
}

impl Clone for UserCommand {
    fn clone(&self) -> (copy: Self)
        ensures
            copy@ == self@,
    {
        let mut args: Vec<UserCommandArg> = Vec::new();
        let mut i: usize = 0;
        while i < self.args.len()
            invariant
                i <= self.args.len(),
                args@.len() == i,
                forall|k: int| 0 <= k < i ==> (#[trigger] args@[k])@ == self.args@[k]@,
            decreases self.args.len() - i,
        {
            args.push(self.args[i].clone());
            i += 1;
        }
        assert(spec_args(args@) =~= spec_args(self.args@));
        let mut options: Vec<UserCommandOption> = Vec::new();
        let mut j: usize = 0;
        while j < self.options.len()
            invariant
                j <= self.options.len(),
                options@.len() == j,
                forall|k: int| 0 <= k < j ==> (#[trigger] options@[k])@ == self.options@[k]@,
            decreases self.options.len() - j,
        {
            options.push(self.options[j].clone());
            j += 1;
        }
        assert(spec_options(options@) =~= spec_options(self.options@));
        UserCommand { name: self.name.clone(), program: self.program.clone(), args, options }
    }
}

impl UserCommand {
    /// What a whole session of building yields: the description that its
    /// answers add up to, if they answer every question.
    pub open spec fn spec_from_cli(answers: Seq<AnswerView>) -> Result<
        CommandView,
        InteractionFailed,
    > {
        BuildState::initial().run(answers).outcome()
    }

    /// Builds a description from the answers of a finished session, taken in
    /// the order in which a [`SchemaBuilder`] asks for them.
    ///
    /// Fails where an answer is a failure or of another kind than its
    /// question asks for, and where the answers end before the last question.
    /// Answers behind the last question are not looked at.
    pub fn from_cli(answers: &Vec<Answer>) -> (outcome: Result<UserCommand, InteractionFailed>)
        ensures
            match outcome {
                Ok(command) => Self::spec_from_cli(spec_answers(answers@)) == Ok::<
                    CommandView,
                    InteractionFailed,
                >(command@),
                Err(_) => Self::spec_from_cli(spec_answers(answers@)).is_err(),
            },
    {
        let mut builder = SchemaBuilder::new();
        let mut i: usize = 0;
        while i < answers.len()
            invariant
                i <= answers.len(),
                builder@ == BuildState::initial().run(spec_answers(answers@).take(i as int)),
            decreases answers.len() - i,
        {
            builder = builder.step(answers[i].clone());
            i += 1;
            assert(spec_answers(answers@).take(i as int).drop_last() =~= spec_answers(
                answers@,
            ).take(i - 1));
        }
        assert(spec_answers(answers@).take(i as int) =~= spec_answers(answers@));
        builder.finish()
    }
}

} // verus!
