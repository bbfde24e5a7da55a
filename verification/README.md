# lpnl

lightpanel: a small command-line panel for nginx servers (Unix only).

- `src/` is the library, verified with Verus: argument checks, the lookup of
  a domain's config file, editing of configs (adding and removing location
  blocks, including the enabled sites in `nginx.conf`), enabling and
  disabling, backups, listings, the nginx version check and install plan,
  error messages and exit codes, and the arithmetic behind the statistics.
  Each public function states what it returns in its contract; the laws
  that relate several functions are public proof functions named `law_*`.
- `app/` is the program around it: command-line parsing, the prompts, file
  and process I/O, and the system statistics (floating point).
- `tests/` runs the library on concrete values.
