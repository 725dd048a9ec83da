# star_escrow

The verified core of the StarEscrow command-line client, written in Verus.

- `src/error.rs`: the client's typed errors and their user-facing messages.
- `src/deadline.rs`: RFC 3339 deadlines to Unix timestamps and back (calendar
  work by chrono, behind trusted wrappers), and whether a timestamp is in the future.
- `src/decimal.rs`: reading a `u64` numeral as `str::parse` does; writing one.
- `src/cli.rs`: network endpoint/passphrase resolution and `--deadline` parsing.
- `src/commands.rs`: the per-operation contract function, arguments, confirmation
  and signing secret; invocation summaries and failure context; payer event
  filtering; hash comparison.
- `app/lib.rs`: the clap argument definitions, conversions, and JSON/table output.
