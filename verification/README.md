# zenith

The flight software of a hybrid-propellant sounding rocket: what the vehicle, its ground relay and
its fill station decide and compute, verified with Verus.

- `src/` is the library. Every executable function states what it returns or changes, and Verus
  proves it. The names that start with `law_` are statements that relate several functions.
  - `modes`, `flight_logic`, `valves`, `vehicle`: the flight modes, the transitions between them, the
    valves and the tick that ties them together.
  - `params`, `param_group`, `storage`, `flash`: the tunable parameters, how they are declared, and
    how they are kept in the flash.
  - `schedule`, `mavlink`, `telemetry`: when telemetry goes out, and what is in it.
  - `links`, `gcs`, `gse`: what comes in from the ground, and who may command what.
  - `bus`, `io`, `foreign_io`, `foreign`, `propulsion`, `tank_level`, `inventory`: the IO boards and
    what is connected to them.
  - `power`, `cpu`, `leds`, `buzzer`: the board itself.
  - `single`: single-precision numbers by their bits, with the comparisons and casts that decisions
    depend on.
  - `bounded`, `text`: the collections and texts of `heapless`, with what is relied upon of them.
- `app/` is the flight computer on the bench: sockets, SPI drivers, tasks and floating-point
  arithmetic around the library.
- `tests/` runs the library.

Times are in milliseconds where they are `u32` and wrap around, and in microseconds where they are
`u64`.
