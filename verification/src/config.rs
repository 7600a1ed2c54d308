//! Configuration files: where a configuration is kept, and the order in which
//! loading one consults the cache, the disk and the defaults.
use vstd::prelude::*;
use crate::senka_error::{SenkaError, SenkaErrorCode};

verus! {

/// A configuration type: it has defaults, which are written to disk when no
/// file holds it yet.
pub trait SenkaConfig: Default {}

/// The test configuration of the demo server.
#[derive(Debug)]
pub struct TestConfig {
    pub test_one: u32,
    pub test_two: u32,
    pub test_vec: Vec<u32>,
}

/// Reads and writes configuration files of the demo server.
#[derive(Debug)]
pub struct ConfigTool;

/// The error of the demo server's configuration tool.
#[derive(Debug)]
pub struct DemoError;

/// The path of the file of configuration `config_name` in `config_dir`:
/// the directory, the name and `.conf`.
pub fn config_file_path(config_dir: &str, config_name: &str) -> (res: String)
    ensures
        res@ == config_dir@ + config_name@ + ".conf"@,
{
    let mut config_path = String::from_str(config_dir);
    config_path.append(config_name);
    config_path.append(".conf");
    config_path
}

/// What the loading of a configuration has just learnt.
#[derive(Clone, Copy, Debug, PartialEq, Eq, Structural)]
pub enum ConfigLoadEvent {
    /// The cache was consulted; `hit` tells whether it held the configuration.
    CacheLookedUp { hit: bool },
    /// Reading the configuration file succeeded or failed.
    DiskRead { ok: bool },
    /// Reading the file's text as the configuration succeeded or failed.
    TextParsed { ok: bool },
    /// Writing the default configuration as text succeeded or failed.
    DefaultSerialized { ok: bool },
    /// Saving the default configuration's text succeeded or failed.
    DefaultWritten { ok: bool },
}

/// What loading a configuration does next.
#[derive(Debug)]
pub enum ConfigLoadAction {
    /// Hand out the cached configuration.
    ReturnCached,
    /// Read the configuration file.
    ReadDisk,
    /// Read the file's text as the configuration.
    ParseText,
    /// Put the configuration just obtained into the cache and hand it out.
    StoreAndReturn,
    /// Write the default configuration as text.
    SerializeDefault,
    /// Save that text as the configuration file.
    WriteDefault,
    /// Give up with this error.
    Fail(SenkaError),
}

/// The next step of loading a configuration: the cache first; on a miss the
/// file; a file that cannot be read makes the defaults be written to disk; a
/// file whose text is not the configuration, and defaults that cannot be
/// written, are `Format` errors.
pub fn config_load_step(event: ConfigLoadEvent) -> (res: ConfigLoadAction)
    ensures
        match event {
            ConfigLoadEvent::CacheLookedUp { hit } => if hit {
                res is ReturnCached
            } else {
                res is ReadDisk
            },
            ConfigLoadEvent::DiskRead { ok } => if ok {
                res is ParseText
            } else {
                res is SerializeDefault
            },
            ConfigLoadEvent::TextParsed { ok } => if ok {
                res is StoreAndReturn
            } else {
                res matches ConfigLoadAction::Fail(e) && e.senka_error_code == SenkaErrorCode::Format
                    && e.error_message@ == "Error toml format"@
            },
            ConfigLoadEvent::DefaultSerialized { ok } => if ok {
                res is WriteDefault
            } else {
                res matches ConfigLoadAction::Fail(e) && e.senka_error_code == SenkaErrorCode::Format
                    && e.error_message@ == "Parse config to string failed"@
            },
            ConfigLoadEvent::DefaultWritten { ok } => if ok {
                res is StoreAndReturn
            } else {
                res matches ConfigLoadAction::Fail(e) && e.senka_error_code == SenkaErrorCode::Format
                    && e.error_message@ == "Write default config to disk failed"@
            },
        },
{
    match event {
        ConfigLoadEvent::CacheLookedUp { hit } => if hit {
            ConfigLoadAction::ReturnCached
        } else {
            ConfigLoadAction::ReadDisk
        },
        ConfigLoadEvent::DiskRead { ok } => if ok {
            ConfigLoadAction::ParseText
        } else {
            ConfigLoadAction::SerializeDefault
        },
        ConfigLoadEvent::TextParsed { ok } => if ok {
            ConfigLoadAction::StoreAndReturn
        } else {
            ConfigLoadAction::Fail(
                SenkaError::new(SenkaErrorCode::Format, String::from_str("Error toml format")),
            )
        },
        ConfigLoadEvent::DefaultSerialized { ok } => if ok {
            ConfigLoadAction::WriteDefault
        } else {
            ConfigLoadAction::Fail(
                SenkaError::new(SenkaErrorCode::Format, String::from_str("Parse config to string failed")),
            )
        },
        ConfigLoadEvent::DefaultWritten { ok } => if ok {
            ConfigLoadAction::StoreAndReturn
        } else {
            ConfigLoadAction::Fail(
                SenkaError::new(
                    SenkaErrorCode::Format,
                    String::from_str("Write default config to disk failed"),
                ),
            )
        },
    }
}

/// The error for a configuration whose file is missing (or is a directory).
pub fn missing_config_error(config_path: &str) -> (res: SenkaError)
    ensures
        res.senka_error_code == SenkaErrorCode::Arguement,
        res.error_message@ == "Config path not exists:"@ + config_path@,
{
    let mut message = String::from_str("Config path not exists:");
    message.append(config_path);
    SenkaError::new(SenkaErrorCode::Arguement, message)
}

} // verus!
