# opengov_cli

A command-line helper that prepares OpenGov referenda which add invulnerable
collators to the system parachains of Polkadot and Kusama, built around a library
verified with Verus.

- `src/` — the verified library:
  - `network.rs`: the chains, their para ids and SS58 prefixes, and chain-name parsing;
  - `text.rs`: ASCII case folding, whitespace trimming, the `0x` prefix;
  - `call_data.rs`: `0x`-prefixed hex call data, written out and read back;
  - `accounts.rs`: reading accounts given as SS58 addresses or 32-byte hex;
  - `calls.rs`: the collator call for the target chain and the XCM `send` that carries
    it there from Asset Hub;
  - `on_chain.rs`: the checks that decide whether a proposal can enact;
  - `output.rs`: the output file name and the relay chain to submit to.
- `app/` — the program: argument parsing, RPC queries, SCALE encoding with the
  runtime types generated from chain metadata, and file output.
- `tests/` — tests of the library.
