# icns

A verified model of the ICNS (Interchain Name Service) contracts, written in
Verus.

## Layout

- `src/` is the library. `name` decides the messages of the name ownership
  contract, `resolver` keeps the records that map a name and a Bech32 prefix
  to an address and decides the resolver's messages and queries, `registrar`
  and `default_registrar` hold the registrars' message types. `byte_order` and
  `assoc` hold the orders and maps that the proofs use, `outside` the items of
  other crates that the library relies on, and `resolver::laws` and
  `name::laws` what holds across operations.
- `app/` holds the contracts' entry points: they read and write the host's
  storage, ask other contracts and the chain, have the host verify the
  secp256k1 signature of a record over the ADR-36 digest that the library
  computes (`resolver::crypto`), and hand what they learned to the library's
  decisions.
- `tests/` runs the library on concrete messages.

## The resolver's state

On chain, the resolver keeps its records, primary names and used signatures in
maps of the host's key-value store. A map there is only a key prefix: its
entries live in the store that the host reaches through its storage interface,
so there is no collection value that the library could hold or call. The
library therefore keeps the part of the state that a message reads as lists of
its own (`ResolverState`), with an invariant that gives what the store gave:
each key occurs once, and the records of one name come in the byte order of
their prefixes, the order in which the store walks its keys. The entry points
in `app/` load into it the entries that a message or query reads (the records
of one name, the primary name of one address, the use of one signature), and
write back what it holds afterwards.

## Dependencies

`serde` stands in `[dependencies]` without being used by the crate's own code;
the serialisation that `app/` needs comes through `cosmwasm-schema`.
`cw-storage-plus` gives `app/` its maps of the host's store. `sha2` hashes the
ADR-36 sign document and `subtle-encoding` decodes Bech32 addresses, both
behind the library's trusted wrappers in `src/outside.rs`.
