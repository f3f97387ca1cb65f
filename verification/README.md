# himalaya_tui

The logic of a terminal e-mail client, verified with Verus: the interface
state machine (panels, lists, pages, dialogs, flags, composer), key handling
with Vim and Emacs navigation aliases, configuration lookup, MIME helpers
(sender and recipients of an outgoing message, the body to show), the setup
wizard's decisions (input classification, probe order, account plans), the
IMAP paging and newest-first ordering, and the JMAP exchanges that send and
save a message, as step functions from state and answer to next request.

- `src/` is the library. Every function there has a contract that Verus
  proves; calls into outside crates go through small wrappers whose
  contracts are stated next to them.
- `tests/` runs the library on concrete values.
- `app/` is the program around it: command line, configuration file,
  network sessions, the terminal and the event loop. It performs the backend
  work the interface asks for through the `io-email` client, drives the JMAP
  send and save exchanges step by step, and hands the results back.
