//! Turning a command description and the values entered for its parameters
//! into a program name and an argument list.
//!
//! Nothing is launched here: the result is what a launcher would be handed.
//! Values are passed on as entered, with no quoting and no check against the
//! kind of their parameter.

use vstd::prelude::*;
use crate::command::{CommandView, OptionView, UserCommand, UserCommandOption};
use crate::session::{
    Answer, AnswerView, InteractionFailed, Prompt, PromptView, spec_answers, spec_texts,
};

verus! {

/// The prompts of a list, each as a mathematical value.
pub open spec fn spec_prompt_views(prompts: Seq<Prompt>) -> Seq<PromptView> {
    prompts.map_values(|prompt: Prompt| prompt@)
}

/// The prompts by which the values of a command are asked for: one for each
/// positional parameter in order, then one for each named option in order,
/// each labelled with the name of its parameter.
pub open spec fn spec_prompts(command: CommandView) -> Seq<PromptView> {
    Seq::new(
        command.args.len() + command.options.len(),
        |i: int|
            if i < command.args.len() {
                PromptView::Text { label: command.args[i].name }
            } else {
                PromptView::Text { label: command.options[i - command.args.len()].name }
            },
    )
}

/// The first `count` answers are there, and each of them is a text.
pub open spec fn spec_answered(answers: Seq<AnswerView>, count: int) -> bool {
    &&& count <= answers.len()
    &&& forall|i: int| 0 <= i < count ==> #[trigger] answers[i] is Text
}

/// The texts of the first `count` answers.
pub open spec fn spec_values(answers: Seq<AnswerView>, count: int) -> Seq<Seq<char>> {
    Seq::new(count as nat, |i: int| answers[i]->Text_0)
}

/// The token that passes `value` for the option `name`: none for an empty
/// value, else `--name=value`.
pub open spec fn spec_option_token(name: Seq<char>, value: Seq<char>) -> Option<Seq<char>> {
    if value.len() == 0 {
        None
    } else {
        Some("--"@ + name + "="@ + value)
    }
}

/// The tokens of the first `count` options, in order, where `values[i]` is
/// the value entered for `options[i]`.
pub open spec fn spec_option_tokens(
    options: Seq<OptionView>,
    values: Seq<Seq<char>>,
    count: nat,
) -> Seq<Seq<char>>
    decreases count,
{
    if count == 0 {
        Seq::empty()
    } else {
        let before = spec_option_tokens(options, values, (count - 1) as nat);
        match spec_option_token(options[count - 1].name, values[count - 1]) {
            Some(token) => before.push(token),
            None => before,
        }
    }
}

/// The argument list of `command` for `values`, which holds the values of
/// the positional parameters followed by those of the named options: the
/// positional values as they are, then the tokens of the options.
pub open spec fn spec_arguments(command: CommandView, values: Seq<Seq<char>>) -> Seq<Seq<char>> {
    values.take(command.args.len() as int) + spec_option_tokens(
        command.options,
        values.skip(command.args.len() as int),
        command.options.len(),
    )
}

impl UserCommandOption {
    /// The token that passes `value` for this option, if any: an empty value
    /// leaves the option out.
    pub fn token(&self, value: &String) -> (token: Option<String>)
        ensures
            value@.len() == 0 ==> token.is_none(),
            value@.len() > 0 ==> token.is_some() && token.unwrap()@ == "--"@ + self.name@ + "="@
                + value@,
            spec_optional_token(token) == spec_option_token(self.name@, value@),
    {
        if value.as_str().is_empty() {
            None
        } else {
            let mut token = String::from_str("--");
            token.append(self.name.as_str());
            token.append("=");
            token.append(value.as_str());
            Some(token)
        }
    }
}

/// The text of a token that may be missing.
pub open spec fn spec_optional_token(token: Option<String>) -> Option<Seq<char>> {
    match token {
        Some(token) => Some(token@),
        None => None,
    }
}

impl UserCommand {
    /// The number of parameters, positional and named.
    pub open spec fn spec_arity(&self) -> int {
        (self.args@.len() + self.options@.len()) as int
    }

    /// The prompts to put, in order, to get the values for one run.
    pub fn prompts(&self) -> (prompts: Vec<Prompt>)
        ensures
            spec_prompt_views(prompts@) == spec_prompts(self@),
    {
        let mut prompts: Vec<Prompt> = Vec::new();
        let mut i: usize = 0;
        while i < self.args.len()
            invariant
                i <= self.args.len(),
                prompts@.len() == i,
                forall|k: int|
                    0 <= k < i ==> (#[trigger] prompts@[k])@ == (PromptView::Text {
                        label: self.args@[k].name@,
                    }),
            decreases self.args.len() - i,
        {
            prompts.push(Prompt::Text { label: self.args[i].name.clone() });
            i += 1;
        }
        let mut j: usize = 0;
        while j < self.options.len()
            invariant
                j <= self.options.len(),
                prompts@.len() == self.args.len() + j,
                forall|k: int|
                    0 <= k < self.args.len() ==> (#[trigger] prompts@[k])@ == (PromptView::Text {
                        label: self.args@[k].name@,
                    }),
                forall|k: int|
                    0 <= k < j ==> (#[trigger] prompts@[self.args.len() + k])@ == (PromptView::Text {
                        label: self.options@[k].name@,
                    }),
            decreases self.options.len() - j,
        {
            prompts.push(Prompt::Text { label: self.options[j].name.clone() });
            j += 1;
        }
        proof {
            let views = spec_prompt_views(prompts@);
            let wanted = spec_prompts(self@);
            assert(views.len() == wanted.len());
            assert forall|k: int| 0 <= k < views.len() implies views[k] == wanted[k] by {
                if k >= self.args.len() {
                    assert(views[k] == prompts@[self.args.len() + (k - self.args.len())]@);
                }
            }
            assert(views =~= wanted);
        }
        prompts
    }

    /// The program and the argument list for one run, from the answers to
    /// [`Self::prompts`] in order.
    ///
    /// Fails where one of these answers is missing or is not a text. Answers
    /// behind the last parameter are not looked at.
    pub fn run_interactive(&self, answers: &Vec<Answer>) -> (outcome: Result<
        (String, Vec<String>),
        InteractionFailed,
    >)
        ensures
            match outcome {
                Ok((program, args)) => {
                    &&& spec_answered(spec_answers(answers@), self.spec_arity())
                    &&& program@ == self@.program
                    &&& spec_texts(args@) == spec_arguments(
                        self@,
                        spec_values(spec_answers(answers@), self.spec_arity()),
                    )
                    &&& args@.len() <= self.spec_arity()
                    &&& self.args@.len() <= args@.len()
                    &&& forall|i: int|
                        0 <= i < self.args@.len() ==> (#[trigger] args@[i])@ == spec_answers(
                            answers@,
                        )[i]->Text_0
                },
                Err(_) => !spec_answered(spec_answers(answers@), self.spec_arity()),
            },
    {
        let ghost given = spec_answers(answers@);
        let ghost values = spec_values(given, self.spec_arity());
        let mut args: Vec<String> = Vec::new();
        let mut k: usize = 0;
        while k < self.args.len()
            invariant
                k <= self.args.len(),
                given == spec_answers(answers@),
                spec_answered(given, k as int),
                args@.len() == k,
                forall|i: int| 0 <= i < k ==> (#[trigger] args@[i])@ == given[i]->Text_0,
            decreases self.args.len() - k,
        {
            if k >= answers.len() {
                return Err(InteractionFailed);
            }
            match &answers[k] {
                Answer::Text(value) => {
                    args.push(value.clone());
                },
                _ => {
                    assert(!(given[k as int] is Text));
                    return Err(InteractionFailed);
                },
            }
            k += 1;
        }
        let ghost tail = values.skip(self.args@.len() as int);
        assert(spec_texts(args@) =~= values.take(self.args@.len() as int));
        let mut j: usize = 0;
        while j < self.options.len()
            invariant
                j <= self.options.len(),
                k == self.args.len() + j,
                given == spec_answers(answers@),
                values == spec_values(given, self.spec_arity()),
                tail == values.skip(self.args@.len() as int),
                spec_answered(given, k as int),
                args@.len() <= k,
                spec_texts(args@) == values.take(self.args@.len() as int) + spec_option_tokens(
                    self@.options,
                    tail,
                    j as nat,
                ),
            decreases self.options.len() - j,
        {
            if k >= answers.len() {
                return Err(InteractionFailed);
            }
            match &answers[k] {
                Answer::Text(value) => {
                    assert(tail[j as int] == value@);
                    let ghost before = spec_texts(args@);
                    match self.options[j].token(value) {
                        Some(token) => {
                            args.push(token);
                            assert(spec_texts(args@) =~= before.push(token@));
                        },
                        None => {},
                    }
                    assert(spec_texts(args@) =~= values.take(self.args@.len() as int)
                        + spec_option_tokens(self@.options, tail, (j + 1) as nat));
                },
                _ => {
                    assert(!(given[k as int] is Text));
                    return Err(InteractionFailed);
                },
            }
            j += 1;
            k += 1;
        }
        proof {
            let texts = spec_texts(args@);
            assert forall|i: int| 0 <= i < self.args@.len() implies (#[trigger] args@[i])@
                == given[i]->Text_0 by {
                assert(texts[i] == values.take(self.args@.len() as int)[i]);
            }
        }
        Ok((self.program.clone(), args))
    }
}

/// The tokens of the options number at most as many as the options.
pub proof fn lemma_option_tokens_len(options: Seq<OptionView>, values: Seq<Seq<char>>, count: nat)
    ensures
        spec_option_tokens(options, values, count).len() <= count,
    decreases count,
{
    if count > 0 {
        lemma_option_tokens_len(options, values, (count - 1) as nat);
    }
}

/// The argument list starts with the values of the positional parameters,
/// each as it was entered, in the order in which the parameters are declared.
pub proof fn law_positional_values_lead(command: CommandView, values: Seq<Seq<char>>)
    requires
        command.args.len() <= values.len(),
    ensures
        spec_arguments(command, values).len() >= command.args.len(),
        spec_arguments(command, values).take(command.args.len() as int) == values.take(
            command.args.len() as int,
        ),
{
    assert(spec_arguments(command, values).take(command.args.len() as int) =~= values.take(
        command.args.len() as int,
    ));
}

/// An option adds nothing to the argument list where its value is empty,
/// and exactly the one token `--name=value`, behind the tokens of the options
/// before it, where it is not.
pub proof fn law_option_passes_or_is_left_out(
    options: Seq<OptionView>,
    values: Seq<Seq<char>>,
    index: nat,
)
    ensures
        values[index as int].len() == 0 ==> spec_option_tokens(options, values, index + 1)
            == spec_option_tokens(options, values, index),
        values[index as int].len() > 0 ==> spec_option_tokens(options, values, index + 1)
            == spec_option_tokens(options, values, index).push(
            "--"@ + options[index as int].name + "="@ + values[index as int],
        ),
{
}

/// The argument list is never longer than the list of parameters.
pub proof fn law_argument_count(command: CommandView, values: Seq<Seq<char>>)
    requires
        command.args.len() <= values.len(),
    ensures
        spec_arguments(command, values).len() <= command.args.len() + command.options.len(),
{
    lemma_option_tokens_len(
        command.options,
        values.skip(command.args.len() as int),
        command.options.len(),
    );
}

} // verus!
