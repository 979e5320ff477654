use whirlwind::command::{UserCommand, UserCommandArg, UserCommandArgType, UserCommandOption};

fn schema() -> UserCommand {
    UserCommand {
        name: "pd".to_string(),
        program: "pipeline-driver".to_string(),
        args: vec![
            UserCommandArg { name: "file".to_string(), ty: UserCommandArgType::FileArg },
            UserCommandArg { name: "mode".to_string(), ty: UserCommandArgType::StringArg },
        ],
        options: vec![UserCommandOption {
            name: "output".to_string(),
            short: None,
            long: None,
            ty: UserCommandArgType::PathArg,
        }],
    }
}

#[test]
fn parser_declares_the_parameters_in_order() {
    let command = schema();
    let parser = command.clap_command();
    assert_eq!(parser.get_name(), "pd");
    let declared: Vec<(String, bool)> = parser
        .get_arguments()
        .filter(|argument| argument.get_id() != "help" && argument.get_id() != "version")
        .map(|argument| (argument.get_id().to_string(), argument.is_required_set()))
        .collect();
    assert_eq!(
        declared,
        vec![
            ("file".to_string(), true),
            ("mode".to_string(), true),
            ("output".to_string(), false),
        ]
    );
}

#[test]
fn parser_of_a_bare_command_declares_nothing() {
    let command = UserCommand {
        name: "ls".to_string(),
        program: "ls".to_string(),
        args: vec![],
        options: vec![],
    };
    let parser = command.clap_command();
    let declared = parser
        .get_arguments()
        .filter(|argument| argument.get_id() != "help" && argument.get_id() != "version")
        .count();
    assert_eq!(declared, 0);
}

#[test]
fn parser_takes_the_values_from_a_command_line() {
    let command = schema();
    let matches = command
        .clap_command()
        .try_get_matches_from(vec!["pd", "run.mro", "fast", "/tmp/out"])
        .unwrap();
    assert_eq!(matches.get_one::<String>("file"), Some(&"run.mro".to_string()));
    assert_eq!(matches.get_one::<String>("mode"), Some(&"fast".to_string()));
    assert_eq!(matches.get_one::<String>("output"), Some(&"/tmp/out".to_string()));

    let matches = command.clap_command().try_get_matches_from(vec!["pd", "run.mro", "fast"]).unwrap();
    assert_eq!(matches.get_one::<String>("output"), None);
}

#[test]
fn parser_insists_on_the_positional_parameters() {
    let command = schema();
    assert!(command.clap_command().try_get_matches_from(vec!["pd", "run.mro"]).is_err());
    assert!(command.clap_command().try_get_matches_from(vec!["pd"]).is_err());
}
