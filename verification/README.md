# lqos_xdp

Attaches an XDP program to network interfaces, either alone (`raw`) or beside
other programs under the libxdp dispatcher (`libxdp`), in priority order.

* `src/` is the library, verified with Verus. It reads the attach mode from the
  command line and the configuration, decides which libxdp call comes next when
  attaching and detaching, and turns libxdp's messages into log lines.
* `app/` makes the calls into libxdp and holds the types that serde and allocative
  know.
* `tests/` runs the library on concrete values.

Where the dispatcher was asked for and cannot take the program, attaching fails.
There is no silent fallback to raw mode: other programs would be left without a
dispatcher to attach to.

The library rests on one claim that is not proved: what `core::str::from_utf8`
returns, in `src/print.rs`.
