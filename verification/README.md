# mcumgr_toolkit

A client for the MCUmgr management protocol of Zephyr devices: firmware updates, file transfers
and the other management commands.

The library does not perform any input or output. For every command it builds the request, and
turns the response into a result; whatever takes more than one request is a chain of steps that
say what is to be done next. What it promises is stated in contracts and checked by Verus.

- `src/commands` holds the commands and their encoding, and how much data fits into a frame
- `src/client` holds the client, the transfers and the firmware update
- `src/usb.rs` finds the serial port of a USB device
- `src/groups` decides what the commands of the command line tool do and print
- `src/cbor.rs`, `src/checksum.rs`, `src/hexadecimal.rs`, `src/random.rs` and `src/usb.rs` call
  other crates; what is believed of them is stated there under "Trusted"
- `app` connects the library to serial ports, the command line and Python
