# special_numbers

A Solana program in which a lover account keeps a name, up to five special
numbers and a love counter. The love counter bounds how many numbers may be
set; a number can be special only once.

Layout:

- `src/` — the verified library (Verus).
  - `instruction.rs`: the instruction byte format and `LoverInstruction::unpack`.
  - `lover.rs`: the account record, its 73-byte layout, and the rules for
    adding a special number and raising the love counter.
  - `name.rs`: fixed 32-byte, zero-padded names.
  - `processor.rs`: what each instruction does to a snapshot of its accounts.
  - `error.rs`: the program's errors.
  - `borsh_io.rs`: the trusted calls into borsh and std, with their contracts.
- `app/` — the runtime side: the entry point, rent, account creation and
  writing account data, carrying out what the library decides.
- `tests/` — tests of the library.
