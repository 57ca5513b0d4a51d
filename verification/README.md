# core_bridge

Verified core of the Wormhole Core Bridge Solana program's legacy guardian set update and of
its legacy account handling, written in Verus.

- `src/error.rs`: the program's error table, codes, names and messages.
- `src/governance.rs`: Core Bridge governance payloads, read with `wormhole-raw-vaas`.
- `src/guardian_set.rs`: guardian sets, their account size and the checks on new guardian keys.
- `src/guardian_set_update.rs`: sizing, access control and processing of a guardian set update.
- `src/model.rs`: a model of the guardian set accounts across successive updates.
- `src/legacy.rs`: discriminator framing of legacy and Anchor accounts.
- `app/lib.rs`: Anchor framework glue (account traits, instruction processor, clock).
