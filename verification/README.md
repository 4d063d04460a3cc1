# touchbars

Verified core of a touch-bar panel: two MPR121 capacitive touch sensors are read
over I2C, and their touch deltas are drawn as opposing bar graphs on a 128x64
SSD1312 OLED.

- `src/` is the library. It is written in Verus: every function has a contract
  that Verus proves. It decides and computes; it performs no I/O.
- `app/` is the program around it. It owns the peripherals, performs the bus
  transfers, register accesses and waits that the library asks for, and hands the
  results back.
  It needs the board's HAL (`sifli-hal`) and, in `OUT_DIR`, the packed boot
  picture.
- `tests/` runs the compiled library on concrete values.

Operations that take several transfers are step functions: each call consumes the
outcome of the last transfer and yields the next one, or the result.

| Module      | What it holds                                                  |
|-------------|----------------------------------------------------------------|
| `mpr121`    | sensor configuration, register packing, driver, register model |
| `oled`      | framebuffer, frame transfer, panel start-up                    |
| `panel`     | model of the panel, and what a frame or a start-up leaves on it|
| `bars`      | the bar graphs                                                 |
| `frame`     | reading both sensors and composing a frame                     |
| `serial`    | set-up of and transmission over the debug serial port          |
| `line`      | what goes over the serial line, and how numbers read           |
| `log_setup` | the text of log lines                                          |

Outside the proofs stand the small functions marked `external_body` in `serial`
and `log_setup`. They call the register types of `sifli-pac` and the level names
of `log`; the comment above each says what is taken on trust.
