//! The interactive session, seen from the library: the prompts it puts and
//! the answers it gets back.
//!
//! The library never talks to a terminal. It says which prompt comes next,
//! and is told the answer; whoever owns the terminal does the asking.

use vstd::prelude::*;

verus! {

/// The error of a session that broke off: a read failed, the user gave up,
/// or an answer was not of the kind that the prompt asked for.
#[derive(Clone, Copy, Debug, PartialEq, Eq, Structural)]
pub struct InteractionFailed;

/// What a session hands back for one prompt.
#[derive(Debug, PartialEq, Eq)]
pub enum Answer {
    /// Free text, as entered.
    Text(String),
    /// Yes or no.
    Confirm(bool),
    /// The position of the item picked from a list.
    Choice(usize),
    /// The prompt could not be answered.
    Failed,
}

/// An [`Answer`] as a mathematical value.
pub enum AnswerView {
    Text(Seq<char>),
    Confirm(bool),
    Choice(int),
    Failed,
}

impl View for Answer {
    type V = AnswerView;

    open spec fn view(&self) -> AnswerView {
        match *self {
            Answer::Text(text) => AnswerView::Text(text@),
            Answer::Confirm(yes) => AnswerView::Confirm(yes),
            Answer::Choice(index) => AnswerView::Choice(index as int),
            Answer::Failed => AnswerView::Failed,
        }
    }
}

impl Clone for Answer {
    fn clone(&self) -> (copy: Self)
        ensures
            copy@ == self@,
    {
        match self {
            Answer::Text(text) => Answer::Text(text.clone()),
            Answer::Confirm(yes) => Answer::Confirm(*yes),
            Answer::Choice(index) => Answer::Choice(*index),
            Answer::Failed => Answer::Failed,
        }
    }
}

/// The answers of a session, each as a mathematical value.
pub open spec fn spec_answers(answers: Seq<Answer>) -> Seq<AnswerView> {
    answers.map_values(|answer: Answer| answer@)
}

/// The texts of a list of strings.
pub open spec fn spec_texts(strings: Seq<String>) -> Seq<Seq<char>> {
    strings.map_values(|text: String| text@)
}

/// What the session is to ask next.
#[derive(Debug, PartialEq, Eq)]
pub enum Prompt {
    /// Ask for free text.
    Text { label: String },
    /// Ask a yes/no question.
    Confirm { label: String },
    /// Ask for one item of a list, to be answered by its position.
    Choice { label: String, items: Vec<String> },
}

/// A [`Prompt`] as a mathematical value.
pub enum PromptView {
    Text { label: Seq<char> },
    Confirm { label: Seq<char> },
    Choice { label: Seq<char>, items: Seq<Seq<char>> },
}

impl View for Prompt {
    type V = PromptView;

    open spec fn view(&self) -> PromptView {
        match *self {
            Prompt::Text { label } => PromptView::Text { label: label@ },
            Prompt::Confirm { label } => PromptView::Confirm { label: label@ },
            Prompt::Choice { label, items } => PromptView::Choice {
                label: label@,
                items: spec_texts(items@),
            },
        }
    }
}

} // verus!
