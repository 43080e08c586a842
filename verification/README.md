# audio_plugins

The verified core of the "Take My Headphones" crossfeed plugin (and of the
parameter framework it shares with the Neural Amp Modeler plugin), written in
Verus.

- `src/` — the library, verified; what it takes on trust is the contracts of
  crossbeam's `ArrayQueue` (`new`, `push`, `pop`) and of `Arc::clone`
  (in `channel.rs`):
  - `parameters/` — parameter definitions (IDs, names, gestures, ranges in
    thousandths, select options), the registry `AnyParameter` of all eleven
    parameters, labels and conversions of the stepped parameters. The
    definitions of Cutoff, Angle, Center and Gain were not among the sources;
    what is recovered and what is assumed is documented on each;
  - `gestures.rs` — double-click and drag gestures;
  - `dsp/` — the xorshift noise source, the intermittent calibration clock and
    the interaural delay line;
  - `state.rs` — the saved-state byte format and the chunked stream transfer;
  - `preset_factory.rs` — the factory presets;
  - `channel.rs` — the bounded inter-thread channel (crossbeam's `ArrayQueue`);
  - `gui.rs` — the dropdown's text and the throttled knob-drag decisions;
  - `utils/` — stereo routing, C string copy, string equality, dB conventions.
- `app/` — ordinary Rust around it: the floating-point filters and signal
  chain, drag arithmetic and formatting, and state/preset plumbing.
- `tests/` — tests of the library.
