# server

A car-sharing web service. Users sign up and log in, browse and filter cars,
book a car for a period, pay (a simulated card payment), return the car and
pay a late fee where they bring it back late; hosts add, edit and remove
their cars. Background sweeps start rentals that are due, withdraw requests
that were never confirmed, and mark late returns overdue.

## Layout

- `src/` is the library, verified with Verus. It holds the service's
  decisions: the SQL text and parameters of the list and lookup queries, the
  reservation and payment workflows as state machines (state and store report
  in, next state and store action out, with the statuses to write), the
  reservation and transaction identifiers, the reservation calendar, the
  answers to account requests, and the statements of the sweeps. Contracts
  state each result; proof functions named `law_*` state the properties that
  hold across calls.
- `tests/` runs the library on concrete values.
- `app/` is the Rocket server around the library: routes, the MySQL store,
  the random generators, the timers, and the fee arithmetic, which is done in
  floating point. It performs the actions that the library's state machines
  ask for and reports back what the store said.
