# monitor_services

A service monitor: it reads a directory of YAML files describing targets
(`web` requests or `custom` check commands), checks each target at its
interval, runs a recovery command when a check fails, logs what happens and
reports failures by e-mail.

- `src/` is the library, verified with Verus: log levels and log lines,
  the settings types and their validation, `${NAME}` substitution, the merging
  of the configuration files, the evaluation of a check's outcome (regular
  expressions, exit status, status codes), the schedule of each target, what
  follows a check or a recovery, the pause of an idle loop, and the content of
  an e-mail report.
- `app/` is the program around it: command line, files, environment
  variables, YAML and serde, HTTP requests, processes, SMTP, and the
  asynchronous loop.
- `tests/` runs the library on concrete values.
