# crunch

A real-time guitar effects processor for the terminal: audio comes in from an input
device, runs through a chain of effects, and goes out to an output device.

The crate is a Verus project. `src/` is the verified library:

- `buffer`: the bounded FIFO of samples between the input and output callbacks;
- `engine`: filling an output block from that FIFO, and the start-up wait for it to fill;
- `delay`: the ring buffers of the chorus and of the feedback delay;
- `chain`: the effect chain's structure;
- `app`, `types`, `widgets`, `screens`, `layout`: the terminal UI's navigation state
  machine, list contents and centred dialogs;
- `selector`: reading a device number typed at a prompt;
- `device`: choosing the smallest buffer a device supports.

Samples are carried through the library as the bit patterns of `f32` values; the effects
themselves compute in floating point and live in `app/`, with device I/O (cpal), terminal
I/O (crossterm, ratatui) and WAV files (hound).
