# platform_common

Shared logic of the embedded-controller development platforms, verified with
Verus.

- `src/` is the verified library:
  - `test` — the self-test pass/fail counter (`TestRunner`) and the laws
    relating its counts to the checks recorded;
  - `thermal_events` — the response to thermal-service events and the
    per-sensor PROCHOT bookkeeping, with the law that the PROCHOT signal is
    asserted exactly while some sensor is over its PROCHOT threshold;
  - `battery_poll` — the fuel-gauge polling schedule (static-data cadence,
    failure counting, recovery trigger) and the recovery decisions;
  - `battery` — the battery data computed from the fuel gauge's registers,
    and the controller's error type;
  - `board`, `sensor` — the board IO trait and the sensor error types.
- `app/` is the firmware glue around it: service start-up, the async tasks
  that talk to the battery, thermal and time-alarm services, the hardware
  trait impls, and the on-target self-test DSL and suite.
- `tests/` exercises the library on concrete values.
