# senka_panel

The logic of the Senka Panel server, verified with Verus.

- `src/` is the library: error type, file descriptions and permission bits,
  directory subscriptions, the process manager and process monitor (tables of
  processes and the decisions of their monitor rounds), tasks and fast commands
  with their stored records, language resources, loggers, the shell protocol,
  log-in answers and the steps of configuration loading. The functions there are
  verified by Verus, most of them against a contract that states their result
  (a few set-up functions, such as `ShellExecutor::new` and
  `database::initialize_database`, have nothing to state); the calls into `dashmap`, `serde_json`,
  `toml`, `uuid` and `chrono` go through small trusted wrappers whose contracts
  are documented next to them.
- `app/` is the server around it: HTTP routes (Rocket), child processes and
  their pipes (Tokio), directory watches (notify), the resource and configuration
  files, and the global logger.
- `tests/` runs the library on concrete inputs.
