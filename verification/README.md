# rinertia

A small Linux daemon that adds pointer inertia to touchpads: when a finger is lifted
while it moves, the pointer coasts on, until it has slowed down, has met an edge of the
screen, or is stopped by a click, by a second finger or by a touch that lasts.

`src/` is the library. It decides, and every decision is verified with Verus:

- which events start inertia, which touches stop it, and when the touchpad is grabbed
  (`input`, `motion`, `touchpad`);
- how the pointer coasts and when it comes to rest (`momentum`, `x11_pointer`);
- the settings in force, the devices to use and the lock on the daemon (`config`,
  `device_discovery`, `instance_lock`);
- the wording of the decision log (`decision_log`, `text`);
- the meaning of doubles, as far as they are compared or split into a whole and a
  fractional part (`double`).

`listener_laws` and `engine_laws`, and the proof functions whose names begin with `law_`
elsewhere, state what holds of the library as a whole.

`app/` is the daemon around the library: the devices, the threads, the files, and the
floating-point arithmetic. `tests/` runs the library on concrete values.
