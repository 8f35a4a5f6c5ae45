# prost-yat

Twirp-style RPC support for protobuf services, verified with Verus.

- `src/error.rs`: the Twirp error codes, their HTTP statuses, and the error type.
- `src/codegen.rs`: the code generator that writes a service trait and a
  server for each protobuf service; its output is specified piece by piece.
- `src/haberdasher.rs`: the example Haberdasher service and the routing
  decisions of its server.
- `app/`: the HTTP server and the `prost_build` hook around the library.
