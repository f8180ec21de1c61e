# qcryptool

A command-line simulator for quantum cryptography protocols (BB84, B92,
BBM92, E91, Six-State, SARG04, QIA-QZKP and GC01), built on the `qcrypto`
crate, whose decision logic is verified with Verus.

## Layout

- `src/` — the verified library. Every function carries a contract that
  Verus proves, except two trusted wrappers whose contracts are assumed:
  `lowercase` (around `str::to_lowercase`, whose result is named, and
  said to be the ASCII lowercase form on ASCII text) and `set_global_seed` (around `qcrypto::rng::set_global_seed`,
  which is said to install the given seed).
  - `channel.rs` — channel models and their names, channel-mix entries, the
    one-entry mix given by command-line flags, how a shot obtains its noise
    parameters, and the parameter errors with their messages.
  - `config.rs` — experiment configurations: the primary and secondary
    channel mixes, the mixes of the command line, and the merging of
    configuration and command-line settings.
  - `protocol.rs` — the protocols, their names and the choice of the
    protocol of an experiment.
  - `run.rs` — the per-shot records, the hexadecimal rendering of keys, key
    comparison and the seeding of shots (the one call into `qcrypto` made
    from the library).
  - `stats.rs` — the samples and counts from which aggregates are computed.
  - `output.rs` — labels, output formats, the CSV files and the keys of the
    JSON output.
  - `report.rs` — the terminal / text reports of shots and aggregates, the
    text output file and what the terminal shows.
- `app/` — the program around the library: argument parsing, file and
  terminal I/O, JSON values, the protocol runs of `qcrypto`, threads and the
  progress bar,
  and every floating-point computation (means, deviations, rendering of
  real numbers, random draws).
- `tests/` — tests of the library.

Noise parameters, rates and statistics are real numbers. The library is
generic over their type and never looks at their values: the program
instantiates it with `f64`, renders real numbers to text itself and hands
the texts to the library, which lays out the reports.
