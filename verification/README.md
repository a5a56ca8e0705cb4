# chimera_mapper

A side-button mapper for the Kreo Chimera V1 mouse, with its core verified in Verus.

- `src/` is the verified library: reading integer options (`numparse`), the action
  notation and the key events of an action (`action`), the saved settings
  (`config`, `args`), the press/release tracking of reports (`mapper`), report
  printing and comparison (`report`), device listing and selection (`device`),
  autodetection (`autodetect`), the reconnect decisions of the read loop
  (`monitor`), input-backend decisions (`backend`) and the
  auto-start files (`service`).
- `app/` is the program: command line, HID and evdev I/O, the configuration file,
  and the run loops, calling the library for every decision.
- `tests/` exercises the library on concrete values.
