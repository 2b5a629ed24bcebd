# virtualization

A verified library for the decision logic of the AuthFS filesystem, the CompOS
compilation services and the VM control tool.

- `src/intparse.rs`, `src/text.rs`: decimal integer parsing with the semantics of
  `str::parse::<u64>` / `str::parse::<i32>`, splitting at a separator, and text equality.
- `src/options.rs`: the AuthFS file options (`ino:remote_id[:cert]`, local file
  options) and the parsed command line, with round-trip laws.
- `src/file_pool.rs`: the file pool AuthFS serves, built from the options and
  what was read about each file; laws on which inodes are served and which
  configuration wins.
- `src/binder_status.rs`, `src/compsvc.rs`, `src/composd.rs`, `src/vm.rs`: the
  answers the services give around their outside work (key handling, argument
  checks, compiler and odrefresh outcomes, fs-verity formatted digests).

`app/` holds the programs: command-line parsing, binder services, file and
process I/O. It calls the library for every decision.
