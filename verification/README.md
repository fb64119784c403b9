# 44 Milady — verified protocol core

The accounting core of the 44 Milady collateralized-credit protocol on Solana, written
in Verus: every instruction's decision (what it accepts, what state it writes, which
token movements and events it asks for) is an executable function whose contract
states its result exactly, and the protocol's cross-instruction properties are proved
as lemmas.

## Layout

- `src/` — the verified library (`forty_four_milady`).
  - `constants`, `errors`, `pubkey`, `bytes`, `state`, `events`: shared types, the
    program's account layouts and little-endian field decoding.
  - `interest`: balance sheet, utilization rate curve, index accrual with fractional
    remainder carry, borrower and supplier synchronization.
  - `risk`: Pyth `PriceUpdateV2` decoding and checks, USD valuation, portfolio risk
    snapshots, the collateral list, parameter validation.
  - `accounts_*` / `handlers_*`: one context struct of plain values per instruction and
    the handler that decides it.
  - `laws_*`: proved properties — accrual conserves liquidity, split accruals charge
    what one accrual would, the rate curve is monotone, every USDG movement changes the
    pool's net position by exactly its amount, the loss waterfall, liquidation bounds,
    the collateral-list invariant and the emergency pause.
- `tests/` — tests of the library on concrete values.
- `app/` — the Anchor program around the library: account validation, token CPIs,
  events and instruction dispatch.
