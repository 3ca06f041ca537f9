# multiow

Player tracking for Oddworld: Abe's Exoddus. A server keeps the position,
location and number of rescued Mudokons of every connected player and sends
the table to every client; a client reads its own player's state from the
running game, reports changes, and draws the players on its screen over the
game window.

Layout:

- `src/` is the verified library (Verus):
  - `player.rs`: the player record, screen-relative positions;
  - `roster.rs`: the table of players keyed by name, with its map model;
  - `text.rs`: name rules, line handling, server address, announcement text;
  - `wire.rs`: values to and from bytes through bincode;
  - `client.rs`: the client's decisions for each tick (what to report, what
    to draw, how long an announcement lasts), and those of the first client;
  - `server.rs`: the server's decisions for each read, write and broadcast;
  - `console.rs`: the server console's commands.
- `app/` runs the programs (`multiow server`, `client`, `legacy-server`,
  `legacy-client`): sockets, threads, the terminal, and on Windows the game's
  memory and the overlay window.
- `tests/` exercises the library on concrete values.
