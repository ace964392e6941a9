# canstack

Verified logic for CAN-bus host drivers and the SAE J1939 message layer,
written in Verus.

- `src/` is the verified library:
  - `can_id`: standard and extended identifiers and the identifier word
    with its extended/remote flags.
  - `timing`: the exhaustive bit-timing search shared by the adapters
    (first candidate with the smallest bitrate error).
  - `cansocket`: Linux SocketCAN frames, error-frame decoding, and the
    reading of system-call results.
  - `gsusb`: the gs_usb host frame and control structures, their byte
    layouts, supported adapters, channel modes and bit timing.
  - `korlan`: the 8Devices Korlan command, transmit and receive records.
  - `pcan`: the PCAN-USB FD command encoding, transmit records and the
    walk over received records.
  - `saelient`: J1939 parameter groups, signals, memory-access diagnostics
    and the transport protocol, including the reassembly of a transfer.
- `app/` holds what performs I/O or needs outside traits: sockets, USB
  transfers, `embedded_can` and `thiserror` impls on copies of the
  library's types, and the floating-point slots.
- `tests/` exercise the library from outside.
