# usb_audio_dac

The logic of a USB Audio Class 2.0 stereo DAC on a Seeed Studio XIAO RP2350,
verified with Verus, and the firmware around it.

- 2-channel PCM, 16 or 24 bits, at 44.1, 48, 88.2 or 96 kHz
- asynchronous isochronous OUT with explicit 10.14 feedback
- I2S output in 32-bit slots, samples left-justified

## Layout

| Where | What |
|---|---|
| `src/audio.rs` | formats, packet sizes, the shared state |
| `src/control.rs` | control requests, alternate settings, bus reset |
| `src/descriptors.rs` | the descriptors and endpoints of the audio function |
| `src/feedback.rs` | the feedback controller |
| `src/fifo.rs` | the sample FIFO |
| `src/pcm.rs` | PCM to I2S slots |
| `src/i2s.rs` | clock division and real timing of the transmitter |
| `src/playback.rs` | reception and playback, step by step |
| `src/bytes.rs` | little-endian fields |
| `app/` | the firmware: peripherals, interrupts, transfers |

Each function states its result in `ensures`. Proof functions named `law_*` state
what holds across functions, such as that a sample rate that was set is read
back, or that words leave the FIFO in the order in which they came.

One function is trusted: `pio_clock_divider` in `src/i2s.rs`, which takes the
PIO clock divider from `embassy_rp`.

## Wiring

DOUT on GPIO26, BCLK on GPIO27, LRCLK on GPIO28.

## Building for the board

`Cargo.toml` selects features with which everything also builds on a host:
`_test` on `embassy-rp`, which leaves the stack guard of the chip unset, and
`platform-spin` on `embassy-executor`, which polls without sleeping. For the
board, target `thumbv8m.main-none-eabihf`:

- `embassy-rp`: `rp235xa` and `critical-section-impl`, without `_test`, and
  `executor-thread` for its executor
- `embassy-executor`: `executor-thread` without `platform-spin`
- `app/main.rs`: `executor = "embassy_rp::executor::Executor"` beside `entry` in
  the attribute on `main`
- a `memory.x` with the flash and RAM of the board, in a directory on the
  linker's search path
- link arguments `--nmagic`, `-Tlink.x` (start-up, from `cortex-m-rt`) and
  `-Tdefmt.x` (log metadata, from `defmt`)
