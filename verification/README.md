# nmea2000

A verified library for the NMEA 2000 side of the windlink boat gateway.

- `header`: the 29-bit extended CAN identifier of a frame and the header it
  carries (priority, PGN, source), with both round trips proved.
- `packets`: Water Depth, ISO Address Claim, ISO Request and the Simnet
  proprietary packets, each with its bit layout as a specification and its
  round trips proved; `decode` picks the packet by PGN.
- `node`: the frame with which this node answers another node's address claim.
- `ble`, `boat`, `text`: the GATT server's decisions for each event, and the
  decimal text that a characteristic read returns.
- `logs`: the bounded in-memory log history.
- `flash`: regions of the external SPI flash.

`app/` is the CAN listener that runs on Linux over SocketCAN, plus the parts of
the firmware that compute in floating point.
