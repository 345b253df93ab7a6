# rvkit

The verified core of `rvkit`, a command-line tool for bare-metal Zig projects
on RISC-V boards (CH32V003, ESP32-C3).

- `src/` is the library, verified with Verus: the supported boards
  (`boards`), version parsing and decimal text (`version`), report text and
  output cleaning (`text`), the external tools (`tools`), and the decisions
  and exact messages of each command (`doctor`, `flash` with the order of
  its checks in `plan_flash`, `zig_build`,
  `monitor`, `config`).
- `app/` is the program around it: argument parsing, reading rvkit.toml,
  running Zig, wlink and esptool, and talking to the serial port.
- `tests/` runs the library on concrete inputs.
