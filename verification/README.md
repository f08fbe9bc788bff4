# bpcon

A verified library for weighted BPCon, a Byzantine-fault-tolerant consensus
protocol in which every party carries a weight and a quorum is a set of
parties whose weights reach a threshold.

- `src/` is the library, verified with Verus: the configuration and its BFT
  threshold (`config`), the protocol messages and the bookkeeping of a round
  (`message`), the weighted leader election (`leader`), the values and their
  selection (`value`), the errors (`error`), and the party's state machine
  (`party`), which follows the events of a ballot and processes the messages
  of the other parties.
- `app/` runs parties over tokio channels and timers, with messages encoded
  by rkyv and values by bincode.
- `tests/` exercises the library.
