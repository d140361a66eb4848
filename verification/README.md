# reco_core

The core of a multi-camera sports recorder, in Verus: the frames of two cameras
are paired by time, placed on a panorama, watched for players and the ball, and
drawn from a virtual camera that follows the play. What the core decides is
stated in `requires` and `ensures` clauses and proved.

## Layout

- `src/` is the library.
  - Frames and time: `time`, `framesync`, `planes`, `replay`, `ring`.
  - Documents: `calibration`, `document`, `projection`, `number`, `text`.
  - Watching and looking: `detector`, `filter`, `panner`, `pose`, `analyze`.
  - Drawing: `engine`, `pipeline`, `lens`, `lens_preview`, `gpu`, `resources`,
    `grid`, `bayer`, `diffusion`, `nv12`, `encode`.
  - Drivers: `cuda`, `npp`, `nvbuf`, `dmabuf`, `d3d11`, `dx12`, `metal`,
    `coreml`.
- `tests/` runs the library on values.
- `app/` is the ordinary Rust around it: files, devices, threads, and the
  arithmetic that needs floating point.

## Conventions

Fractions are held as the bit patterns of IEEE numbers (`number::Real32` and
`number::Real64`). The library compares them, clamps them, widens them and rounds
them; it does not add or multiply them.

Work that goes back and forth with a driver is a state machine: `next_call`
says what to ask for, `reply` takes the answer, and the state says when it is
done. A reply to something that was not asked changes nothing.

Public proof functions whose names begin with `law_` state what holds across
calls.

A few functions of other crates and of the standard library are taken at their
word; each is wrapped once, and the comment above it says what is taken on
trust.
