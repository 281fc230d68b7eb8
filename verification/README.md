# bindizr (verified core)

The decisions and renderings of the bindizr DNS management CLI and daemon,
written in Verus and proved against their contracts:

- `src/` is the verified library. Each module states what its functions
  return over spec functions and proves it; the laws of the library (exit
  statuses that separate failure classes, a patch that shows exactly the
  changed records, key files that never share a name, TXT rdata that reads
  back as its segments, ...) are public proof functions beside the code they
  are about.
  - `text`: decimal rendering, padding, whitespace, search and small parsers.
  - `bind_conf`: the ports a BIND configuration fetches the catalog zone from.
  - `doctor`: the installation checks and the report that counts them.
  - `diff`: record diffs as zone-file patches, and TXT quoting.
  - `cli_error`: error codes, HTTP statuses, exit statuses and hints.
  - `lifecycle`: what the daemon does on each signal or control request.
  - `dnssec_status`, `secondary`, `config_listing`, `config_value`,
    `daemon_status`, `policies`, `keys`, `zone_commands`, `commands`: the
    command outputs and the decisions around each daemon request.
  - `table`, `output`, `color`, `time`, `api`: table cells, output formats,
    coloring, instants (through chrono) and the HTTP front end's answers.
- `tests/` runs the library on concrete values.
- `app/` is the I/O around it: terminal detection, JSON/YAML and table
  output, input files, polling, and the probes `doctor` makes of the host.
