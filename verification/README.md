# logitech_hidpp

A verified library for the Logitech HID++ 1.0 and 2.0 protocols, with the
`solaars` command line (and its `daemon` action, a D-Bus service) around it.

## Layout

- `src/` — the library, written in Verus. Every function in it is verified
  against its contract; where a result depends on what a device answers,
  the contract fixes the requests handed to the channel and states the
  result for every answer the channel may give. It covers message framing
  and classification, the request/reply and ping decisions, register and feature replies, battery
  and firmware decoding, the feature table, receivers and paired devices
  (generic over a `HidppChannel`), onboard profiles (sector layout and CRC),
  device settings, and the text the command line prints. The laws of the
  library (byte codings that read back, settings that read back what was
  written, indices never reused, ...) are public proof functions.
- `tests/` — tests that run the compiled library, including against a
  scripted channel.
- `app/` — the program: hidapi I/O (the request and ping loops, the
  notification listener), the command-line actions, YAML for onboard
  profiles, and the D-Bus daemon (`solaars daemon`), which follows receivers
  plugged in and out with libusb hotplug events.
