# rust-esp32-std-demo

A demo for ESP32 boards: an MQTT subscription drives a strip of LEDs, next to a set
of self-tests for threads, sockets, timers, displays and a web server.

- `src/` is the library. Every decision that can be made from plain values is made
  there and verified: the MQTT session, the LED frames, the way the network comes
  up, the plans that bring up the displays, the routes of the web server, the echo
  service and the texts that are printed.
- `app/` is the program. It owns the sockets, pins, timers and tasks, carries out
  what the library asks for, and tells it what came of it.
- `tests/` runs the library on concrete values.

The calls into other crates that the library relies on (the MQTT codec, the pixel
type of the LED driver, and a few functions of the standard library) stand behind
items marked `external_body` or `assume_specification`; the comment above each says
what is taken for granted.
