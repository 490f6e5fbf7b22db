# qubit-fs-testkit

Evidence model and decision logic for filesystem provider contract suites,
verified with Verus.

A contract suite exercises a filesystem provider through the `qubit-fs`
facade and records, for every stable check, whether the provider passed,
rejected an unsupported request as required, or could not be verified.
This crate holds the parts of such a suite that decide things, each with a
contract that Verus proves:

- `src/contract_check_id.rs`, `src/check_catalog.rs`: the check catalog —
  stable names, phases, optional and asynchronous-only checks, capabilities.
- `src/contract_report.rs`, `src/report_laws.rs`, `src/contract_run.rs`: how
  registered checks, recorded outcomes, violations and failures decide
  whether a report or run satisfies its requirements.
- `src/contract_context.rs`: suite-unique names, the cleanup ledger and the
  cleanup decisions.
- `src/temp_directory_probe.rs`, `src/rename_probe.rs`,
  `src/representation_probe.rs`, `src/temp_items.rs`,
  `src/basic_copy_probe.rs`, `src/strong_copy_probe.rs`,
  `src/copy_cancel_probe.rs`, `src/delete_probe.rs`,
  `src/write_basic_probe.rs`, `src/write_if_match_probe.rs`,
  `src/owning_write_probe.rs`, `src/read_options_probe.rs`: check scenarios
  as step machines. A driver performs each request and hands back the
  facade's answer; the probe decides the next request, what is recorded,
  and the exact diagnostic of a failure.
- `src/cleanup_report.rs`: the cleanup history, whose failures are only
  ever appended.
- `src/s3/`: the S3 contract fixture's rules — configuration, key mapping,
  SDK error classification, read ranges, listing steps, the single-PUT write
  session and the test gate.

`app/` is ordinary Rust around the library: environment access, fixture and
facade calls, panic capture, the drivers of the probes, the single-check
suite runner, the synchronous and asynchronous cleanup loops and the S3
adapter that implements the facade's provider interface over
`object_store`.

`tests/` exercises the library on concrete values.
