# Bottles server

A gRPC server for Bottles: profiles and their storefront accounts, the games of a
profile across storefronts, bottles, and layered prefixes. What the server decides
is verified with Verus; what it does with the network, the disk and other services
is ordinary Rust around that.

## Layout

- `src/` is the verified library.
  - `text`, `path`, `ids`, `json`: texts, slash-separated paths, identifiers and JSON
    documents.
  - `status`, `machine`, `relay`, `registry`: answers to failed calls, calls in
    progress, forwarded streams, and reaching a storefront's plugin.
  - `accounts`, `profile`, `steam`, `proxy`, `prefix`: the calls of the services of
    that name.
  - `bottle`: calls on bottles, and bottles as the core library and as the protocol
    have them.
  - `library`, `launch`: listing, watching, installing and removing games, and which
    of a game's files launches it.
- `app/` is the server: it performs what the library asks for and hands back what came
  of it.
- `tests/` runs the library.

## Calls in progress

A call that waits on another service is a value that says what is to be done next.
`Machine::step` takes it on by the result of having done so. Each machine's `stepped`
states what follows on what, and the laws beside it hold of every run.

## What is trusted

`ids` and `json` hold what is believed of the `uuid` and `serde_json` crates, `text`
what is believed of `String::push`. Each such item says which outside function it
speaks of.
