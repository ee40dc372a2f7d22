# eventual

Futures and streams built on a lock-free core. What Verus proves is each
step of the core's protocol (the word a transition moves to and the work it
hands back), each single compare-and-swap attempt, and laws about sequences
of steps taken one after another. The atomics are not modelled, so nothing
is proved about steps of several threads interleaving.

- `src/` is the verified library:
  - `core_state`: the packed state word of a core (lifecycle, running
    callback flags, registration count);
  - `core_protocol`: the transition table of the core and its laws;
  - `core_atomic`: the atomic state word and one compare-and-swap attempt per
    transition;
  - `select_state`, `select`: the selection word of `select`, its attempts and
    the staging of the selected values;
  - `process`: the lock words of `Stream::process`;
  - `sequence`: the slot counters and send state of `sequence`;
  - `join`: the staging of joined values and the countdown that finishes a
    join;
  - `receipt`, `timer`, `atomic`: callback receipts, timer arithmetic and the
    `syncbox` atomic word;
  - `lib.rs`: `AsyncError`, and the `Async`, `Cancel` and `Pair` traits.
- `app/` holds the shared-memory plumbing that runs callbacks across threads:
  the reference-counted core, streams and senders, `process`, `sequence` and
  timer ticks. It retries each compare-and-swap attempt of the library until
  it lands.
- `tests/` exercises the library on concrete values.
