# sniffnet interface state

The state machine behind the graphical interface of the sniffnet network
monitor, verified with Verus.

- `src/` is the verified library. `sniffer.rs`, `capture.rs` and `update.rs`
  hold the state of the interface and its reaction to each message
  (`Sniffer::update`, specified by `Sniffer::step`); `laws.rs` proves what holds
  across messages; the other modules hold the pages, settings, notification
  settings, traffic data, chart, timing and SVG coloring types.
- `app/` is the unverified host: it reads the adapters and opens captures with
  pcap, keeps the clock, the floating-point scale factor and the colors,
  performs the actions the state asks for, and produces iced commands.
- `tests/` exercises the library.
