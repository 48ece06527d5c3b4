# supervictor

The logic of the Supervictor IoT stack — the device firmware's HTTP, DNS and
captive-portal code, the cloud API's handlers, and the `qs` command line's
pipelines — as a Verus library with its contracts proved.

## Layout

- `src/text.rs`, `src/pattern.rs`: strings as `Seq<char>`: UTF-8 lengths,
  lines, trimming, searching, joining, decimal text, and a 256-byte
  string held in heapless's `String<256>`.
- `src/device/`: request building and response parsing (`http`), the portal's
  request parsing, routing and responses (`server`), the DNS hijack answer
  (`dns`), and the device's WiFi and uplink tasks as state machines (`wifi`,
  `uplink`); `roundtrip` proves that the portal reads back the request line
  and the body that the request builders write.
- `src/endpoint/`: configuration, errors and their HTTP answers, the models,
  and the request handlers over a `DeviceStore`.
- `src/cli/`: the `qs` pipelines (`dev`, `edge`, `staging`, `prod`), the
  truststore reload, onboarding and `ping`, each a function from state and
  event to the next state and the operation to perform.
- `tests/`: the tests of the library.
- `app/`: the `qs` binary: argument parsing, processes, files, HTTP and the
  terminal, performing the operations the library's machines ask for.
