use senka_panel::config::{config_file_path, config_load_step, missing_config_error, ConfigLoadAction, ConfigLoadEvent};
use senka_panel::logger::{extract_filename, get_logger, LogLevel};
use senka_panel::senka_error::SenkaErrorCode;
use senka_panel::shell::{IncomingMessage, ShellCommand, ShellExecutor};
use senka_panel::user::{answer_login, answer_register, LoginUserRequest, RegisterUserRequest};
use senka_panel::text::{contains_str, push_decimal};

#[test]
fn extracts_file_stems() {
    assert_eq!(extract_filename("src/routes/user.rs"), "user");
    assert_eq!(extract_filename("C:\\proj\\src\\a.b.rs"), "a.b");
    assert_eq!(extract_filename("noext"), "noext");
    assert_eq!(extract_filename(".bashrc"), "");
    assert_eq!(extract_filename("dir/"), "");
    assert_eq!(extract_filename(""), "");
    assert_eq!(extract_filename("a.dir/file"), "file");
}

#[test]
fn loggers_tag_records() {
    let logger = get_logger("client");
    let record = logger.info("started");
    assert_eq!(record.level, LogLevel::Info);
    assert_eq!(record.target, "senka_panel-client");
    assert_eq!(record.module, "senka_panel");
    assert_eq!(record.message, "started");
    assert_eq!(logger.trace("t").level, LogLevel::Trace);
    assert_eq!(logger.debug("d").level, LogLevel::Debug);
    assert_eq!(logger.warn("w").level, LogLevel::Warn);
    assert_eq!(logger.error("e").level, LogLevel::Error);
}

#[test]
fn sudo_detection() {
    assert!(ShellCommand::from_str("sudo ls").is_sudo());
    assert!(ShellCommand::from_string(String::from("echo x && sudo reboot")).is_sudo());
    assert!(!ShellCommand::from_str("ls -la").is_sudo());
    assert!(!ShellCommand::from_str("pseudo").is_sudo());
    assert!(!ShellCommand::from_str("sud").is_sudo());
    assert!(contains_str("abc", ""));
}

#[test]
fn shell_messages() {
    let ok = ShellCommand::from_message(IncomingMessage::Text("{\"command\":\"ls\"}".to_string()), Some(ShellCommand::from_str("ls"))).unwrap();
    assert_eq!(ok.command, "ls");
    let bad = ShellCommand::from_message(IncomingMessage::Text("oops".to_string()), None).unwrap_err();
    assert_eq!(bad.senka_error_code, SenkaErrorCode::Format);
    assert_eq!(bad.error_message, "Can not parse message:oops");
    let other = ShellCommand::from_message(IncomingMessage::Other("Binary<length=3>".to_string()), None).unwrap_err();
    assert_eq!(other.error_message, "Message is not text:Binary<length=3>");
}

#[test]
fn executor_is_not_implemented() {
    let mut executor = ShellExecutor::new();
    let err = executor.execute(&ShellCommand::from_str("ls")).unwrap_err();
    assert_eq!(err.senka_error_code, SenkaErrorCode::NoImplementation);
    assert_eq!(err.error_message, "NoImplementation");
}

#[test]
fn accounts_are_accepted() {
    let login = answer_login(&LoginUserRequest { user_name: "a".to_string(), passwd_hash: "h".to_string() });
    assert!(login.success);
    assert_eq!(login.message, "");
    let register = answer_register(&RegisterUserRequest { email_addr: "a@b".to_string(), user_name: "a".to_string(), passwd_hash: "h".to_string() });
    assert!(register.success);
    assert_eq!(register.message, "");
}

#[test]
fn config_paths_and_steps() {
    assert_eq!(config_file_path("./config/", "server::Settings"), "./config/server::Settings.conf");
    assert!(matches!(config_load_step(ConfigLoadEvent::CacheLookedUp { hit: true }), ConfigLoadAction::ReturnCached));
    assert!(matches!(config_load_step(ConfigLoadEvent::CacheLookedUp { hit: false }), ConfigLoadAction::ReadDisk));
    assert!(matches!(config_load_step(ConfigLoadEvent::DiskRead { ok: true }), ConfigLoadAction::ParseText));
    assert!(matches!(config_load_step(ConfigLoadEvent::DiskRead { ok: false }), ConfigLoadAction::SerializeDefault));
    assert!(matches!(config_load_step(ConfigLoadEvent::TextParsed { ok: true }), ConfigLoadAction::StoreAndReturn));
    match config_load_step(ConfigLoadEvent::TextParsed { ok: false }) {
        ConfigLoadAction::Fail(e) => {
            assert_eq!(e.senka_error_code, SenkaErrorCode::Format);
            assert_eq!(e.error_message, "Error toml format");
        }
        _ => panic!("unparsable configuration text is an error"),
    }
    assert!(matches!(config_load_step(ConfigLoadEvent::DefaultSerialized { ok: true }), ConfigLoadAction::WriteDefault));
    match config_load_step(ConfigLoadEvent::DefaultSerialized { ok: false }) {
        ConfigLoadAction::Fail(e) => assert_eq!(e.error_message, "Parse config to string failed"),
        _ => panic!("a default that cannot be written is an error"),
    }
    assert!(matches!(config_load_step(ConfigLoadEvent::DefaultWritten { ok: true }), ConfigLoadAction::StoreAndReturn));
    match config_load_step(ConfigLoadEvent::DefaultWritten { ok: false }) {
        ConfigLoadAction::Fail(e) => assert_eq!(e.error_message, "Write default config to disk failed"),
        _ => panic!("a default that cannot be saved is an error"),
    }
    let e = missing_config_error("./c/x.conf");
    assert_eq!(e.senka_error_code, SenkaErrorCode::Arguement);
    assert_eq!(e.error_message, "Config path not exists:./c/x.conf");
}

#[test]
fn decimal_numbers() {
    let mut s = String::from("n=");
    push_decimal(&mut s, 0);
    assert_eq!(s, "n=0");
    let mut s = String::new();
    push_decimal(&mut s, 4_294_967_295);
    assert_eq!(s, "4294967295");
}
