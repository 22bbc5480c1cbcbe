# Open Protocol device simulator

A simulated fastening controller that speaks Open Protocol over TCP.

- `src/` is the verified library: message framing and parsing
  (`protocol`), the data sections of the messages the controller sends
  (`handler::data`), the MID handlers and their registry (`handler`), the
  device state (`state`, `tightening_tracker`, `multi_spindle`), sessions and
  subscriptions (`session`, `subscriptions`), and the decisions of a client
  connection (`connection`): what goes back for each received frame and
  which push messages an event produces.
- `app/` is the server around it: the TCP listener, the NUL-delimited codec,
  the shared state with its event channel, and the loop of each connection.
- `tests/` exercises the library.
