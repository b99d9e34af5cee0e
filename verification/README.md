# chance_registry

A verified library for the Chance release registry on Solana: a versioned registry of
program releases (daily lotteries and giveaways) with a delayed, immutability-gated
activation, pause/discontinue lifecycle with permanent records, successor links, and a
sequential inventory of created instances with canonical business keys.

Layout:

- `src/wire.rs`, `src/codec.rs`: the wire schema and its byte layout, with exact encoders
  and decoders (each decoder accepts exactly the bytes some value encodes to).
- `src/registry.rs`, `src/processor.rs`, `src/loader.rs`, `src/pda.rs`, `src/hashing.rs`:
  the registry program's decisions. `processor::process_instruction` takes the accounts
  of an instruction as plain values and returns the ordered account changes
  (`Effect`s), or the error; its contract is `processor::spec_process`.
- `src/binding.rs`, `src/daily/`, `src/giveaway/`: what the domain programs check when
  they bind to the registry and record an instance, and their retired timing
  instructions.
- `src/laws.rs`: properties across instructions (terminal discontinuation, activation
  gate, append-only records, acyclic successors, fixed governance, unique business keys,
  wire round trips).
- `app/lib.rs`: the Solana entrypoint that reads accounts and sysvars, calls the library
  and performs the changes it returns through system-program invocations.
