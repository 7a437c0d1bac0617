# slay

The state and rules of a game of *Here to Slay*, as a library whose behaviour is stated in
contracts and proved with Verus.

- `src/specs`, `src/specification.rs`: every card of the game and what is printed on it
  (labels, classes, monsters' conditions and requirements, heroes' abilities, spells).
- `src/state`: decks, stacks, players, turns, the game, and setting up a game.
- `src/tasks.rs`: the queue of tasks each player works through, and the tasks that the
  library carries out by itself: moving a card, drawing, receiving a status effect, using a
  hero's ability, taking a slain monster, challenging, modifying a roll, saying how far one
  is with a showdown, and recording values.  The tasks that wait for a decision of the
  player (choosing a player or a card, stealing, discarding, sacrificing, pulling,
  searching the discard pile and the like) are kept in the queue as data, and carrying one
  of them out fails.
- `src/showdown`: rolls, offers to challenge and challenges, with the modifications players
  make to them and the decisions they are offered.
- `src/strategy.rs`: picking one of the offered options at random.
- `app/`: writing summaries of a game to any `Write`.

`tests/` runs the library on concrete games.
