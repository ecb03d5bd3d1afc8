# Novops

Novops loads secrets and configuration into an environment: environment variables and
files whose values come from plain strings, Hashicorp Vault, AWS (Secrets Manager, SSM,
S3, STS), Google Cloud Secret Manager, Azure Key Vault, SOPS and Bitwarden, as declared
per environment in `.novops.yml`.

## Layout

- `src/` is the library, verified with Verus. It holds the configuration model, the
  choice of environment, config file and working directory, the safety checks, the
  resolution of every input that needs no service (plain strings, and all inputs in
  dry-run mode), what each module makes of a service's answer, how outputs are gathered,
  and how variables are quoted and written for a shell.
  - `novops_core.rs`: config, context and resolvable inputs; `ResolveTo`.
  - `load.rs`: load arguments, outputs, environment choice, config path, working
    directory, permission and tty checks, symlink decisions, child command.
  - `export.rs`: quoting and the `dotenv` / `dotenv-export` formats, with a model of how
    a shell reads quoted text.
  - `resolve.rs`: gathering the results of all inputs, or every failure.
  - `listing.rs`: what `novops list` prints.
  - `order.rs`, `keyed.rs`, `text.rs`: name order, string-keyed collections, strings.
  - `modules/`: one module per secret source.
- `app/` is the command line: argument parsing, reading the YAML config, calling the
  services, the file system and the terminal.
- `tests/` exercises the library.
