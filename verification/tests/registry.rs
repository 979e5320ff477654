use whirlwind::command::{UserCommand, UserCommandArg, UserCommandArgType};
use whirlwind::config::{
    InsertOutcome, RemoveOutcome, WhirlwindCommand, WhirlwindConfig, WhirlwindEnv,
};
use whirlwind::table::NameTable;

fn command(name: &str, program: &str) -> UserCommand {
    UserCommand {
        name: name.to_string(),
        program: program.to_string(),
        args: vec![UserCommandArg { name: "file".to_string(), ty: UserCommandArgType::FileArg }],
        options: vec![],
    }
}

fn env(value: &str) -> WhirlwindEnv {
    WhirlwindEnv { value: value.to_string() }
}

fn pair(name: &str, value: &str) -> (String, String) {
    (name.to_string(), value.to_string())
}

#[test]
fn new_configuration_is_empty() {
    let config = WhirlwindConfig::new();
    assert_eq!(config.workspace.directory, "");
    assert_eq!(config.commands.len(), 0);
    assert_eq!(config.environment.len(), 0);
    assert_eq!(config.list_command(), vec![]);
    assert_eq!(config.list_env(), vec![]);
}

#[test]
fn second_insert_under_one_name_replaces() {
    let mut config = WhirlwindConfig::new();
    assert_eq!(config.add_command(command("pd", "pipeline-driver")), InsertOutcome::Inserted);
    assert_eq!(
        config.add_command(command("pd", "other-driver")),
        InsertOutcome::Replaced(command("pd", "pipeline-driver"))
    );
    assert_eq!(config.commands.len(), 1);
    assert_eq!(config.commands.names(), vec!["pd"]);
    assert_eq!(config.commands.get(&"pd".to_string()), Some(&command("pd", "other-driver")));
}

#[test]
fn removing_an_absent_name_changes_nothing() {
    let mut config = WhirlwindConfig::new();
    config.add_command(command("pd", "pipeline-driver"));
    config.add_command(command("ls", "ls"));
    config.add_env("HOME".to_string(), "/root".to_string());
    assert_eq!(config.remove_command("nope".to_string()), RemoveOutcome::NotFound);
    assert_eq!(config.remove_env("NOPE".to_string()), RemoveOutcome::NotFound);
    // names are told apart by case and are not matched in part
    assert_eq!(config.remove_command("PD".to_string()), RemoveOutcome::NotFound);
    assert_eq!(config.remove_command("p".to_string()), RemoveOutcome::NotFound);
    assert_eq!(config.list_command(), vec![pair("pd", "pd"), pair("ls", "ls")]);
    assert_eq!(config.list_env(), vec![pair("HOME", "/root")]);

    let mut empty = WhirlwindConfig::new();
    assert_eq!(empty.remove_command("pd".to_string()), RemoveOutcome::NotFound);
    assert_eq!(empty.commands.len(), 0);
}

#[test]
fn removing_a_command_takes_only_that_one() {
    let mut config = WhirlwindConfig::new();
    config.add_command(command("a", "1"));
    config.add_command(command("b", "2"));
    config.add_command(command("c", "3"));
    assert_eq!(config.remove_command("b".to_string()), RemoveOutcome::Removed);
    assert_eq!(config.commands.names(), vec!["a", "c"]);
    assert_eq!(config.commands.get(&"b".to_string()), None);
    assert_eq!(config.commands.get(&"c".to_string()), Some(&command("c", "3")));
    assert_eq!(config.remove_command("b".to_string()), RemoveOutcome::NotFound);
    assert_eq!(config.remove_command("a".to_string()), RemoveOutcome::Removed);
    assert_eq!(config.remove_command("c".to_string()), RemoveOutcome::Removed);
    assert_eq!(config.commands.len(), 0);
}

#[test]
fn environment_variables_are_set_and_replaced() {
    let mut config = WhirlwindConfig::new();
    assert_eq!(config.add_env("A".to_string(), "1".to_string()), InsertOutcome::Inserted);
    assert_eq!(config.add_env("B".to_string(), "2".to_string()), InsertOutcome::Inserted);
    assert_eq!(
        config.add_env("A".to_string(), "3".to_string()),
        InsertOutcome::Replaced(env("1"))
    );
    assert_eq!(config.environment.len(), 2);
    assert_eq!(config.environment.get(&"A".to_string()), Some(&env("3")));
    assert_eq!(config.environment.get(&"B".to_string()), Some(&env("2")));
    assert_eq!(config.list_env(), vec![pair("A", "3"), pair("B", "2")]);
    assert_eq!(config.remove_env("A".to_string()), RemoveOutcome::Removed);
    assert_eq!(config.list_env(), vec![pair("B", "2")]);
    assert_eq!(config.commands.len(), 0);
}

#[test]
fn commands_and_environment_do_not_mix() {
    let mut config = WhirlwindConfig::new();
    config.add_command(command("x", "1"));
    config.add_env("x".to_string(), "2".to_string());
    assert_eq!(config.remove_env("x".to_string()), RemoveOutcome::Removed);
    assert_eq!(config.list_command(), vec![pair("x", "x")]);
    assert_eq!(config.list_env(), vec![]);
}

#[test]
fn listing_shows_the_key_and_the_carried_name() {
    let mut config = WhirlwindConfig::new();
    config.commands.insert("alias".to_string(), command("pd", "pipeline-driver"));
    config.add_command(command("ls", "ls"));
    assert_eq!(config.list_command(), vec![pair("alias", "pd"), pair("ls", "ls")]);
    // listing twice gives the same
    assert_eq!(config.list_command(), config.list_command());
}

#[test]
fn table_keeps_one_entry_per_name() {
    let mut table: NameTable<u32> = NameTable::new();
    assert_eq!(table.len(), 0);
    assert!(!table.contains(&"a".to_string()));
    assert_eq!(table.insert("a".to_string(), 1), None);
    assert_eq!(table.insert("b".to_string(), 2), None);
    assert_eq!(table.insert("".to_string(), 0), None);
    assert_eq!(table.insert("a".to_string(), 3), Some(1));
    assert_eq!(table.len(), 3);
    assert!(table.contains(&"a".to_string()));
    assert!(table.contains(&"".to_string()));
    assert_eq!(table.get(&"a".to_string()), Some(&3));
    assert_eq!(table.get(&"c".to_string()), None);
    assert_eq!(table.names(), vec!["a", "b", ""]);
    assert_eq!(table.name_at(1), "b");
    assert_eq!(*table.value_at(1), 2);
    assert_eq!(table.remove(&"a".to_string()), Some(3));
    assert_eq!(table.remove(&"a".to_string()), None);
    assert_eq!(table.names(), vec!["b", ""]);
    assert_eq!(table.insert("a".to_string(), 4), None);
    assert_eq!(table.names(), vec!["b", "", "a"]);
}

#[test]
fn plain_command_line_is_kept_as_text() {
    let kept = WhirlwindCommand { command: "ls -l".to_string() };
    assert_eq!(kept, WhirlwindCommand { command: "ls -l".to_string() });
}
