# viscous

Drives a VISCA pan/tilt/zoom camera over a serial line or TCP, from a window,
a full-screen terminal or a bare transcript.

The library under `src/` decides, and Verus proves what it decides:

- `worker`, `title`, `shot`, `power`, `preset`, `nudge`, `pan_tilt`, `zoom`,
  `focus` and `wire` say what the camera is told. The messages for titles, for
  waking up and for going to a shot they write down to the bytes; the others
  are written by `grafton-visca`.
- `state` and `connection` say what its answers mean.
- `keymap`, `window_keys`, `taps`, `gamepad`, `rocker` and `drives` say what a
  hand on a control asks for.
- `session` and `window` keep what a front end knows, and say what each event
  asks for. `running` proves what they leave running on the camera.
- `config`, `args`, `ui`, `cli`, `labels`, `padlock` and `bridge` are the rest
  of what the front ends share; `text`, `clock`, `deflection` and `error` hold
  what everything uses.

The programs under `app/` open the camera, read the controls and draw. They
turn how far a control is pushed, which is floating point, into the speeds the
library takes, and they perform the effects it hands back.
