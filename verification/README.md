# headers_relay

A headers relay copies the headers of a source chain to a target chain. This
project is its synchronization loop: it listens to both nodes, keeps the queue of
headers informed, and decides which request each node gets next.

`src/` is the verified library.

- `types`, `number`: headers, their identifiers and block numbers.
- `clients`: what the relay can ask of the two nodes. A request takes the client
  and gives it back with the answer.
- `queue`: what the loop tells the queue of headers, and what it asks of it. The
  queue is left abstract, and nothing is promised of its answers.
- `failure`: what becomes of a client whose request has failed.
- `timing`: delays, and the clock, which is read afresh wherever the loop needs the
  present moment.
- `stall`: when the synchronization is restarted, and when a backup relay steps in.
- `progress`: when a progress message is due.
- `selection`: the order of priority of the requests.
- `state`, `handling`, `sync_loop`: the loop itself, one iteration at a time.
- `laws`: what holds of single iterations and of whole runs.

Contracts speak of a call to a client, to the queue or to the clock through `call_ensures`: they
say which call was made, on which arguments, and what followed from its answer,
whatever the answer was. A caller whose queue has contracts of its own gets them
back out of the contracts of the loop.

`app/` runs the loop: it waits for the answers of the nodes and for the timers, and
writes the log.
`tests/` holds the tests of the library.
