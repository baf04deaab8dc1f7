# virtual_branches

Verified pieces of the virtual branch controller of a git client.

- `src/hunk.rs`: `Hunk`, an inclusive range of line numbers, with its text
  form `"<first>-<last>"`. Reading and printing are proved against
  `parse_spec` and `text_of`, and printing then reading an ordered hunk gives
  it back.
- `src/decimal.rs`: base-ten line numbers, read as `usize`'s `from_str`
  reads them and printed in their shortest form.
- `src/controller.rs`: the controller's operations, with their plain
  arguments, as plans of outside steps (`plan`), and `Flow`, which takes the
  reply to each step and says what to do next (`respond`): which step comes
  next, the operation's call with its arguments and keys (`call_of`), which
  error it returns, or what it returns when it finishes (`outcome_of`). Proved: operations that run under the
  project's lock check the integration branch before acting, operations that
  check for conflicts act only when there are none, and every operation ends.
- `app/lib.rs`: the asynchronous controller that runs a `Flow` under a
  per-project lock, with the outside work behind the `Steps` trait.
