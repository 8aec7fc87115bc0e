# audio

Records what the desktop plays (the monitor source of PulseAudio's default
output) and shows it as a small level meter.

- `src/` is the verified library: the recorder's decisions while connecting,
  finding the monitor source and reading frames (`session`, `monitor`), its
  errors (`error`), and the meter's integer signal handling (`signal`).
- `app/` is the program around it: the calls into the PulseAudio server
  (`app/recorder.rs`), the window, the FFT and the floating-point scaling
  (`app/main.rs`).
