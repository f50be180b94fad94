# solji

Verified core of two Solana temple programs written with Anchor:

* `sol_ji` (`src/solji`): a temple account, users, incense buying and
  burning, lots drawn with Switchboard randomness, wishes and their tower
  NFT, donations with merit medals, medal staking and the program's NFTs.
* `temple` (`src/temple`): incense kinds, fortune draws, the shop, donations,
  medal, amulet and Buddha NFTs, and the temple's configuration.

`src/` is checked by Verus. In `sol_ji` each instruction is a function of
the accounts it reads and writes, with a contract over a mathematical model
of those accounts; on any error no account changes.

In `temple` the user and statistics accounts are modelled in
`src/temple/state.rs` by the fields the instructions read and write. The
instructions that change them (incense burning and buying, shop purchases,
donations, medal mints and upgrades, amulet mints, fund donations, the
configuration's creation) take them
by `&mut` and leave them unchanged on error. What those instructions learn
from account methods whose definitions are not part of this project (the
temple's status check, a line's own validation, the daily reset and daily
limit, the donation level a total reaches)
they take as arguments. The other temple instructions return what they
decide (a plan of the NFT to mint, the fortune drawn, the price to pay) and
leave the writing to the caller.

`src/solji/laws.rs` and `src/temple/laws.rs` state properties that hold
across operations.

`app/` is the Anchor program around the library: account layouts, token and
metadata calls, events and entry points, and the floating-point donation
rules of the `temple` program. `tests/` runs the library on concrete values.
