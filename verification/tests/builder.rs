use whirlwind::builder::SchemaBuilder;
use whirlwind::command::{UserCommand, UserCommandArg, UserCommandArgType, UserCommandOption};
use whirlwind::session::{Answer, InteractionFailed, Prompt};

fn text(value: &str) -> Answer {
    Answer::Text(value.to_string())
}

fn arg(name: &str, ty: UserCommandArgType) -> UserCommandArg {
    UserCommandArg { name: name.to_string(), ty }
}

fn option(name: &str, ty: UserCommandArgType) -> UserCommandOption {
    UserCommandOption { name: name.to_string(), short: None, long: None, ty }
}

fn pipeline_driver_session() -> Vec<Answer> {
    vec![
        text("pd"),
        text("pipeline-driver"),
        Answer::Confirm(true),
        text("file"),
        Answer::Choice(3),
        Answer::Confirm(false),
        Answer::Confirm(true),
        text("output"),
        Answer::Choice(4),
        Answer::Confirm(false),
    ]
}

fn pipeline_driver() -> UserCommand {
    UserCommand {
        name: "pd".to_string(),
        program: "pipeline-driver".to_string(),
        args: vec![arg("file", UserCommandArgType::FileArg)],
        options: vec![option("output", UserCommandArgType::PathArg)],
    }
}

#[test]
fn session_builds_pipeline_driver() {
    assert_eq!(UserCommand::from_cli(&pipeline_driver_session()), Ok(pipeline_driver()));
}

#[test]
fn builder_asks_in_the_fixed_order() {
    let kinds: Vec<String> =
        vec!["string", "int", "float", "file", "path", "other"].into_iter().map(String::from).collect();
    let text_prompt = |label: &str| Some(Prompt::Text { label: label.to_string() });
    let confirm_prompt = |label: &str| Some(Prompt::Confirm { label: label.to_string() });
    let choice_prompt =
        || Some(Prompt::Choice { label: "Argument type".to_string(), items: kinds.clone() });

    let mut builder = SchemaBuilder::new();
    let mut asked = Vec::new();
    for answer in pipeline_driver_session() {
        asked.push(builder.prompt());
        builder = builder.step(answer);
    }
    assert_eq!(
        asked,
        vec![
            text_prompt("name"),
            text_prompt("exec"),
            confirm_prompt("Add arguments?"),
            text_prompt("Argument name"),
            choice_prompt(),
            confirm_prompt("Add another agument?"),
            confirm_prompt("Add options?"),
            text_prompt("Argument name"),
            choice_prompt(),
            confirm_prompt("Add another agument?"),
        ]
    );
    assert_eq!(builder.prompt(), None);
    assert_eq!(builder.finish(), Ok(pipeline_driver()));
}

#[test]
fn positional_parameters_keep_order_and_number() {
    let answers = vec![
        text("deploy"),
        text("/usr/bin/deploy"),
        Answer::Confirm(true),
        text("target"),
        Answer::Choice(0),
        Answer::Confirm(true),
        text("retries"),
        Answer::Choice(1),
        Answer::Confirm(true),
        text("ratio"),
        Answer::Choice(2),
        Answer::Confirm(true),
        text("target"),
        Answer::Choice(5),
        Answer::Confirm(false),
        Answer::Confirm(false),
    ];
    let command = UserCommand::from_cli(&answers).unwrap();
    assert_eq!(
        command.args,
        vec![
            arg("target", UserCommandArgType::StringArg),
            arg("retries", UserCommandArgType::IntArg),
            arg("ratio", UserCommandArgType::FloatArg),
            arg("target", UserCommandArgType::Other),
        ]
    );
    assert_eq!(command.options, vec![]);
    assert_eq!(command.name, "deploy");
    assert_eq!(command.program, "/usr/bin/deploy");
}

#[test]
fn options_keep_order_and_have_no_aliases() {
    let answers = vec![
        text("c"),
        text("cc"),
        Answer::Confirm(false),
        Answer::Confirm(true),
        text("level"),
        Answer::Choice(1),
        Answer::Confirm(true),
        text("out"),
        Answer::Choice(3),
        Answer::Confirm(false),
    ];
    let command = UserCommand::from_cli(&answers).unwrap();
    assert_eq!(command.args, vec![]);
    assert_eq!(
        command.options,
        vec![
            option("level", UserCommandArgType::IntArg),
            option("out", UserCommandArgType::FileArg),
        ]
    );
    assert!(command.options.iter().all(|o| o.short.is_none() && o.long.is_none()));
}

#[test]
fn session_without_parameters_builds_bare_command() {
    let answers = vec![text("ls"), text("ls"), Answer::Confirm(false), Answer::Confirm(false)];
    assert_eq!(
        UserCommand::from_cli(&answers),
        Ok(UserCommand {
            name: "ls".to_string(),
            program: "ls".to_string(),
            args: vec![],
            options: vec![],
        })
    );
}

#[test]
fn empty_name_is_accepted() {
    let answers = vec![text(""), text(""), Answer::Confirm(false), Answer::Confirm(false)];
    let command = UserCommand::from_cli(&answers).unwrap();
    assert_eq!(command.name, "");
    assert_eq!(command.program, "");
}

#[test]
fn choice_picks_kind_by_position() {
    assert_eq!(UserCommandArgType::from_choice(0), UserCommandArgType::StringArg);
    assert_eq!(UserCommandArgType::from_choice(1), UserCommandArgType::IntArg);
    assert_eq!(UserCommandArgType::from_choice(2), UserCommandArgType::FloatArg);
    assert_eq!(UserCommandArgType::from_choice(3), UserCommandArgType::FileArg);
    assert_eq!(UserCommandArgType::from_choice(4), UserCommandArgType::PathArg);
    assert_eq!(UserCommandArgType::from_choice(5), UserCommandArgType::Other);
}

#[test]
fn choice_past_the_list_is_other() {
    assert_eq!(UserCommandArgType::from_choice(6), UserCommandArgType::Other);
    assert_eq!(UserCommandArgType::from_choice(usize::MAX), UserCommandArgType::Other);
    let answers = vec![
        text("x"),
        text("x"),
        Answer::Confirm(true),
        text("a"),
        Answer::Choice(17),
        Answer::Confirm(false),
        Answer::Confirm(false),
    ];
    let command = UserCommand::from_cli(&answers).unwrap();
    assert_eq!(command.args, vec![arg("a", UserCommandArgType::Other)]);
}

#[test]
fn labels_stand_in_the_order_of_the_kinds() {
    assert_eq!(
        UserCommandArgType::choice_labels(),
        vec!["string", "int", "float", "file", "path", "other"]
    );
    let kinds = UserCommandArgType::choices();
    assert_eq!(kinds.len(), 6);
    for (index, kind) in kinds.iter().enumerate() {
        assert_eq!(UserCommandArgType::from_choice(index), *kind);
        assert_eq!(kind.label(), UserCommandArgType::choice_labels()[index]);
    }
}

#[test]
fn failed_answer_leaves_no_command() {
    let complete = pipeline_driver_session();
    for at in 0..complete.len() {
        let mut answers = complete.clone();
        answers[at] = Answer::Failed;
        assert_eq!(UserCommand::from_cli(&answers), Err(InteractionFailed));
    }
}

#[test]
fn failure_is_not_undone_by_later_answers() {
    let mut answers = vec![text("pd"), Answer::Failed];
    answers.extend(pipeline_driver_session());
    assert_eq!(UserCommand::from_cli(&answers), Err(InteractionFailed));

    let mut builder = SchemaBuilder::new();
    builder = builder.step(Answer::Failed);
    assert_eq!(builder.prompt(), None);
    builder = builder.step(text("pd"));
    assert_eq!(builder.prompt(), None);
    assert_eq!(builder.finish(), Err(InteractionFailed));
}

#[test]
fn answer_of_the_wrong_kind_breaks_off() {
    // a yes/no where the name is asked for
    assert_eq!(UserCommand::from_cli(&vec![Answer::Confirm(true)]), Err(InteractionFailed));
    // a text where yes or no is asked for
    let answers = vec![text("pd"), text("p"), text("yes"), Answer::Confirm(false), Answer::Confirm(false)];
    assert_eq!(UserCommand::from_cli(&answers), Err(InteractionFailed));
    // a text where the kind is picked
    let answers = vec![
        text("pd"),
        text("p"),
        Answer::Confirm(true),
        text("file"),
        text("file"),
        Answer::Confirm(false),
        Answer::Confirm(false),
    ];
    assert_eq!(UserCommand::from_cli(&answers), Err(InteractionFailed));
}

#[test]
fn session_that_ends_early_fails() {
    let complete = pipeline_driver_session();
    for len in 0..complete.len() {
        assert_eq!(UserCommand::from_cli(&complete[..len].to_vec()), Err(InteractionFailed));
    }
    let unfinished = SchemaBuilder::new().step(text("pd"));
    assert_eq!(unfinished.finish(), Err(InteractionFailed));
}

#[test]
fn answers_behind_the_last_question_are_ignored() {
    let mut answers = pipeline_driver_session();
    answers.push(Answer::Confirm(true));
    answers.push(text("more"));
    answers.push(Answer::Failed);
    assert_eq!(UserCommand::from_cli(&answers), Ok(pipeline_driver()));
}

#[test]
fn copies_are_equal() {
    let command = pipeline_driver();
    assert_eq!(command.clone(), command);
    let answer = text("x");
    assert_eq!(answer.clone(), answer);
    assert_eq!(Answer::Choice(3).clone(), Answer::Choice(3));
}
