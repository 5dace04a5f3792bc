# solarance

Rules of a small multiplayer space shooter whose ships move by dead
reckoning: the server stores a flight snapshot only when a pilot's input
changes, and every client extrapolates it each frame.

`src/` is verified with Verus and holds what the game decides with integers
and booleans:

- `input`, `commands`: pilot key state and the thrust and turn requests;
- `clock`, `motion`: the client's server-clock offset and when a snapshot is
  extrapolated;
- `combat`: the fire-rate limit, bullet lifetimes and the checks of a
  reported hit;
- `world`: systems, sectors, what each player has seen of them, sector
  travel, the rows of a first spawn and the seed universe;
- `ships`, `stellar`, `stations`: ship, stellar object and station rows,
  cargo accounting and station costs;
- `roster`, `client`: the client's caches of ships and bullets and its
  collision pass (which bullet is reported against which ship, and which
  bullets leave the cache);
- `identity`, `table`: identities, timestamps and table lookups.

`app/` holds the floating-point flight model and geometry, the float halves
of the server's requests, and the client program with its drawing, input and
panel. The module's client bindings are generated code that the project does
not carry, so the program runs the requests in-process over in-memory tables.
