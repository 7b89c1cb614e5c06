# tpdu

An SMS transfer-layer and relay-layer PDU codec (3GPP TS 23.040, TS 23.038,
TS 24.011), written in Verus: every function of the codec carries a contract
over a mathematical model of its types, and Verus proves it.

- `src/` — the verified library: addresses, the SMS-SUBMIT decoder, the
  SMS-DELIVER / SMS-SUBMIT-REPORT / RP-DATA / RP-ACK encoders, GSM 7-bit and
  UCS-2 user data, the builders, and `laws.rs`, which states what the decoders
  read back of what the encoders wrote. `trusted.rs` holds every call into the
  `gsm7` and `hex` crates and the few `String` operations of std that vstd does
  not specify; those contracts are believed, not proved.
- `tests/` — known-answer vectors, scenarios and edge cases.
- `app/` — the PyO3 bindings (`import tpdu`), which read the clock for the
  default service-centre time stamp and turn codec errors into `ValueError`.

Malformed or truncated input makes the decoders return an error, never
panic. Some inputs make an encoder panic rather than fail (a time stamp of
odd byte length, a digit string whose byte pairs cut through a char, an
alphanumeric address of 128 packed octets or more). The encoders leave those
inputs out by `requires`; the address, SMS-DELIVER and RP-DATA encoders have a
`try_encode` companion that returns `None` on exactly those inputs, and
`timestamp_cannot_encode` tells apart the time stamps the SMS-SUBMIT-REPORT
and RP-ACK encoders cannot take.
