use lethe::{Cli, Command};

#[test]
fn commands_carry_their_arguments() {
    let cli = Cli {
        command: Command::New { body: "b".to_string(), aliases: Some(vec!["x".to_string()]) },
        dir: Some(std::path::PathBuf::from("/tmp/notes")),
    };
    match cli.command.clone() {
        Command::New { body, aliases } => {
            assert_eq!(body, "b");
            assert_eq!(aliases, Some(vec!["x".to_string()]));
        }
        Command::Read { .. } => panic!("wrong command"),
    }
    let read = Command::Read { id: "i".to_string() };
    assert!(matches!(read, Command::Read { id } if id == "i"));
}
