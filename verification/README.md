# escrow

A milestone-based escrow between a client and a freelancer, with an
optional arbiter, written in Verus and proved against its contracts.

Layout of `src/`:

- `errors`, `amounts`, `fees`, `ledger`, `types`: error codes, amount
  validation and checked sums, the protocol fee, milestone sums and the
  plain data types.
- `transitions`: the milestone state machine and the per-milestone version log.
- `escrow`: one contract and its schedule; every operation is stated as an
  outcome (`*_outcome`) and a resulting state (`after_*`) over `EscrowView`.
- `disputes`: payouts of a dispute resolution.
- `reputation`, `governance`: ratings and their limits; admin rotation and
  two-person parameter proposals.
- `platform`: every contract, the administrator, pause and emergency
  switches, fee settings, reputations and proposals, with the invariant
  `platform_wf`.
- `token`: holdings of the settlement token and the transfers that move
  them; a deposit and a fee withdrawal return the transfer they order, and
  money moves only once the settlement token is bound.
- `events`: the events the platform publishes (one per accepted operation,
  none for a refused or read-only call) and their lookup by topic and
  contract.
- `laws`: proof functions for the properties that span operations,
  among them that the escrow's holdings follow every transfer.
- `fixture`, `scenarios`, `defaults`, `budget`: a scenario builder and
  ready-made situations, the standard schedule, and resource ceilings.

Delivering the published events and keeping storage belong to the host
the escrow runs in.
