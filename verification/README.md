# lekstack

The logic of a local PHP development stack for Linux (nginx, php-fpm,
MariaDB, PostgreSQL, Redis, Node and Bun runtimes, `.test` sites),
written in Verus and verified.

- `src/` is the verified library:
  - `text` — comparisons, decimal formatting, `split`, `lines`,
    `split_whitespace`, `trim` and removal, each against an exact
    specification of the std behaviour;
  - `paths` — joining paths as `PathBuf::join` does, the stack's home;
  - `config` — the registry of parked directories and its laws;
  - `ports` — default service ports, php-fpm ports, site routing ports,
    the services settings file;
  - `settings_json` — the `serde_json` calls behind the settings files;
  - `site` — gathering sites, TLS files, nginx server blocks, outcomes of
    the site commands;
  - `service` — what a service name stands for, pid and log files,
    command lines, nginx and php-fpm configuration;
  - `database` — account statements, client command lines, reading the
    clients' output;
  - `runtime` — downloads, unpacking, installed versions (sorted),
    global command links;
  - `templates` — the configuration texts and the fixed support files.
- `app/` is the command-line program around it: the file system, the
  processes it starts, the downloads, and the serde copies of the data
  types.
- `tests/` runs the library on concrete inputs.
