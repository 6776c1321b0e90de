# pit_indexer

A bot that watches chat servers through an observer account, picks invite
links out of the messages it sees, and files each invited server in a
directory server (one text channel per server, described by the server's
identifier), while obeying a few commands of its owner.

- `src/` is the verified library (Verus): message routing and scanning rules
  (`routing`), the owner's commands (`command`), invite-link extraction with
  the `regex` crate (`ripper`), the indexing run as a state machine
  (`indexing`) and the properties every step of it keeps (`index_laws`).
- `app/` connects the two accounts to the chat service, performs the requests
  the library names, and feeds the answers back.
- `tests/` runs the library on concrete messages and answers.
