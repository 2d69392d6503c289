# playnow

The queue and session logic of PlayNow, a matchmaking service for Steam
players, verified with Verus.

* `src/` is the library. Each backend operation (checking a login session,
  queueing a player, reading a player's place in the queue, leaving the
  queue, the periodic sweep of expired players) is an exchange with redis:
  it hands out one command at a time and is resumed with the reply.
  `store.rs` models what redis does with each command, and `laws.rs` proves
  what the operations promise of one another over that model. The web
  site's preference cookie, login link and the websocket protocol are in
  `prefs.rs`, `login.rs` and `wshandler.rs`.
* `app/` is the program around it: the iron web site, the websocket server,
  the sweep thread, and the redis and postgres connection pools.
* `tests/` runs the library on concrete values.
