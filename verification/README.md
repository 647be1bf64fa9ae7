# chain_contracts

Verified logic of three families of Solana programs, written in Verus:

- `lottery`: two players stake lamports and commit to the digests of their
  secrets; they reveal in turn, the parity of the two secrets' lengths picks
  the winner, and a player who does not reveal in time forfeits the pot.
- `bet`: two participants stake a wager; a designated oracle pays the pot to
  one of them before a deadline, after which both wagers can be refunded.
- `amm`: constant-product liquidity pools: deposits mint liquidity,
  redemptions pay out a proportional share of both reserves, swaps price the
  input against the reserves.

Each family has a `model` module with what its programs share, and one
module per program. An instruction is a function from the account state and
the instruction's inputs (signatures, clock readings, balances) to the new
state and the lamports or tokens to move; its contract states the outcome
for every input, and the laws of each program (what a settled bet or lottery
allows, that a swap keeps the product of the reserves) are proof functions
beside it.

`common`, `address`, `hashing` and `math` hold what all families use:
account keys, program-derived addresses, Keccak-256 and SHA-256 digests
(computed by `solana-program` and `sha2`), and integer square roots.

`app/` holds helpers in ordinary Rust that Verus does not see: reading the
clock, converting keys, moving lamports and tokens as the library's outcomes
ask, and the one floating-point square root. It is not a deployable program:
the instruction handlers, account contexts and events of the framework are
not written there.
