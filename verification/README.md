# homemagic_application

The application layer of HomeMagic, a home-automation hub: its command policy,
automation compiler and simulator, durable automation runtime decisions, Matter
fabric and subscription workflows, authentication and in-memory storage rules.
The library is written in Verus; every function in `src/` carries a contract
that Verus proves.

## Layout

- `src/` — the verified library, one module per concern:
  - `policy`, `command_service`: command admission, rate limits and permits.
  - `automation_compiler`, `target_resolution`, `condition_compiler`,
    `trigger_compiler`, `action_compiler`, `plan_compiler`, `closed_plans`:
    turning an authored automation into a closed execution plan.
  - `automation_evaluator`, `automation_events`, `automation_scheduler`,
    `automation_runtime`, `runtime_condition`, `automation_engine`,
    `automation_lifecycle`: evaluation, trigger matching, scheduling, the
    runtime's step decisions and its durable continuous-duration conditions.
  - `simulation`, `simulation_run`, `simulator`, `automation_simulator`:
    the deterministic simulator over virtual time.
  - `matter_*`: Matter controller contracts, subscription recovery, projection,
    inventory, diagnostics and fabric and node workflows.
  - `authentication`, `digest`, `time`, `memory`, `ports`, `application`.
- `tests/` — executable tests of the library.
- `app/` — host glue that Verus does not check: asynchronous services over
  durable stores, serde and error types, canonical request and trace hashing
  over serde's encoding, and the floating-point decimal order.

Calls into outside crates (chrono, chrono-tz, cron, sha2, argon2, rand) stand
behind small trusted wrappers whose doc comments say what each assumes.
