# hydrasdr_rs

Driver logic of the HydraSDR RFOne receiver, verified with Verus, and a driver
on top of `nusb` that runs it.

- `src/` holds every decision: configuration rules, vendor requests and their
  order, replies, device discovery and opening, gain plans, sample-rate
  selection, receive streams, the shared receiver state and its errors. Each
  function states what it returns or changes in its contract. The library
  performs no USB transfer: it hands out requests and buffers and takes replies
  and completions back. The laws that hold of several functions together are the
  public proof functions whose names begin with `law_`.
- `app/` performs the USB transfers, waited or awaited, and runs the
  floating-point sample arithmetic.
- `tests/` runs the library against fake devices.

## Receiving

A stream is read in steps. `begin_read` starts a read, `next_step` says whether
it is over, needs the next USB completion or has bytes to convert, and
`on_completion` and `on_converted` take the results back. Transfers come from a
fixed pool of buffers; each buffer is in the queue, in the stream or on its way
between the two.

## Settings

Center frequencies are `24_000_000..=1_800_000_000` Hz. Raw ADC sample rates are
`10_000..=65_535_999` Hz, converted IQ rates `10_000..=32_767_999` Hz, and manual
bandwidths `1_000..=65_535_999` Hz. Preset gains have the indexes `0..=21`;
manual gains are LNA `0..=14`, mixer `0..=15` and VGA `0..=15`. A device accepts
the rates of its tables; manual bandwidths are not supported by current firmware.
