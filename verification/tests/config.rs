use reminder_cli::cli::{Cli, Command};
use reminder_cli::config::{Config, ConfigError, API_KEY_VAR};

#[test]
fn a_key_in_the_environment_is_the_configuration() {
    assert_eq!(
        Config::from_env(Some("sk-123".to_string())),
        Ok(Config { api_key: "sk-123".to_string() })
    );
}

#[test]
fn an_empty_key_is_a_key() {
    assert_eq!(Config::from_env(Some(String::new())), Ok(Config { api_key: String::new() }));
}

#[test]
fn no_key_is_an_error() {
    assert_eq!(Config::from_env(None), Err(ConfigError::MissingApiKey));
    assert_eq!(
        ConfigError::MissingApiKey.message(),
        "Please set DEEPSEEK_API_KEY in .env file"
    );
    assert_eq!(API_KEY_VAR, "DEEPSEEK_API_KEY");
}

#[test]
fn a_command_is_create_or_list() {
    let create = Cli {
        command: Command::Create { time: "+1h".to_string(), message: "tea".to_string() },
    };
    let list = Cli { command: Command::List };
    assert_ne!(create, list);
    match create.command {
        Command::Create { time, message } => {
            assert_eq!(time, "+1h");
            assert_eq!(message, "tea");
        }
        Command::List => panic!("not a list"),
    }
}
