# anland

Input handling for the anland display consumer, verified with Verus.

- `src/ffi.rs`: the consumer protocol: event type numbers, payload layouts
  (32-bit fields; single floats held by their bit patterns) and the payload
  views of a raw input event.
- `src/input.rs`: the virtual device, the compositor-facing events, the input
  backend, and `translate`, which decides which event a raw consumer event
  stands for and stamps it.
- `src/laws.rs`: properties proved of `translate` across all inputs.
- `app/`: the C interface of the consumer, the monotonic clock, floating-point
  coordinates, and smithay's input traits implemented over the library's events.
