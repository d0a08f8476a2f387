# defi_adapters

Adapters that let one gateway program drive many Solana DeFi protocols
(Francium, Friktion, Genopets staking, Jupiter, Larix, Lido, Lifinity,
Marinade, NFT Finance, Orca, Raydium, Saber, Solend, Tulip) through one
calling convention: an instruction takes a byte input and a list of
remaining accounts, invokes the protocol, and returns four `u64` amounts
read off token balances.

## Layout

- `src/` is the verified library (Verus).
  - `adapter_common`: accounts, cross-program instructions, selectors,
    balance changes, the byte layout of inputs and outputs, and the `Plan`
    an instruction carries out.
  - `adapter_<protocol>`: for each instruction, the decoding of its input and
    a function from the accounts and input to the exact plan: which
    instructions are invoked, with which accounts and data, and how the
    output amounts are measured.
  - `raydium_price`: the pool and open-orders layouts a Raydium price is read
    from, and the pool's integer balances.
  - `uint`, `decimal`, `rate`, `math`, `last_update`, `reserve`,
    `lending_obligation`, `pack`, `reserve_layout`, `obligation_layout`,
    `refresh`: Tulip's lending state: fixed-point arithmetic, reserves and
    obligations, their byte layouts, and the refresh of an obligation's
    values.
- `tests/` runs the library on concrete values.
- `app/` is the unverified side that touches the chain: it turns runtime
  accounts into the library's values, runs a plan's invocations, reads token
  balances, returns the output data, and prices deposits in floating point.
