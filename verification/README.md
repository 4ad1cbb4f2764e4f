# v2x

Building, encoding and decoding ETSI Cooperative Awareness Messages (CAM), and the
bookkeeping around publishing them from a SUMO traffic simulation and tracking the
stations heard from, verified with Verus.

- `src/` is the verified library. `cam` builds the content of a CAM from vehicle telemetry
  in ETSI units, encodes it and reads the bytes back before it hands them out; `decoding`
  reads received CAMs; `decoder_input` keeps from the decoder the bytes it would read past
  the end of; `its` is the boundary to the `c-its-parser` codec; `destination` reads
  `message:encoding:host:port` destinations and removes duplicates; `registry` hands out
  station ids; `tracked_objects` and `tracking` keep the latest message of every station
  and expire old ones; `sumo` holds the decisions around launching and driving SUMO.
- `tests/` runs the library against the real codec.
- `app/` is the simulation publisher program: command line, SUMO process, TraCI, UDP,
  and the floating-point conversions between SI units and ETSI units.
