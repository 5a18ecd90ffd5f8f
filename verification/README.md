# air_quality_monitor

Verified logic of an STM32F103 air-quality monitor (SHT30 temperature and
humidity, PMS7003 particles, ZE08-CH2O formaldehyde, SSD1306 display, rotary
encoder, button, LED and buzzer).

- `src/` — the library, verified with Verus:
  - `page.rs`: the three UI pages and how the encoder cycles through them;
  - `protocol.rs`: the two sensors' serial frames: commands, checksums,
    decoding, and the search for a frame header in the byte stream;
  - `sensors.rs`: what is remembered of each sensor;
  - `text.rs`: display-line buffers (`heapless::String<32>`) and decimal
    formatting;
  - `display.rs`: the text lines of each screen;
  - `monitor.rs`: the decisions of the 50 Hz main loop, one step at a time;
  - `laws.rs`: properties spanning several steps.
- `app/main.rs` — the firmware: peripherals, sensor I/O, drawing, and the main
  loop calling the library's steps.
- `tests/` — tests on concrete values.
