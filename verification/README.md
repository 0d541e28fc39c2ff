# mamp

Real-time video motion magnification in the browser, with a verified planning core.

The library in `src/` is written in Verus. It decides everything that can be decided on plain
values: at which size a camera's frames are processed, which buffers, parameter blocks and bind
groups a pipeline needs, which GPU commands a frame takes and in which order, which cameras are
asked for and what happens when one cannot be opened, and how the state of the program changes.
Every function has a contract, and the laws that hold across functions are proved next to them.

The program in `app/` owns the GPU, the camera and the page. It carries the plans out and
reports back how that went.

## Layout

```
src/
  arith.rs       rounding up, powers of two, logarithms
  scale.rs       scaling a length as binary64 arithmetic does it, in integers
  words.rs       32-bit words and their bytes
  text.rs        decimals, labels, the text of the transform shader
  gpu.rs         buffers, workgroups, layout slots, adapters, device limits
  fallback.rs    trying alternatives in order
  steerable.rs   the steerable pyramid: sizes, buffers, parameters, commands of a frame
  model.rs       the neural magnifier
  evm.rs         Eulerian magnification
  weights.rs     weight files
  video.rs       opening a camera, grabbing a frame
  session.rs     the state of the program, the animation loop
app/             the program around the library
tests/           what the library does on concrete values
```

`steerable/laws.rs`, `model/laws.rs` and `session/laws.rs` hold the laws of those modules.

## What is trusted

Two calls: `bytemuck::cast_slice`, which views words as bytes, and `str::replace`. Their
contracts are stated where they are wrapped, in `words.rs` and `text.rs`.

Floating-point values pass through the library as words that hold their bits; what is computed
in floating point is in `app/floats.rs`.

## Running

The page serves the shaders from `shaders/` beside the program.
