# match_strategies

The decisions of football players from one step of a match to the next, verified with Verus.

- `src/` is the library. `context` holds what a player sees of the match, `outcome` and `movement`
  what comes of a step, `forwarders`, `midfielders` and `goalkeepers` one module for each state
  that a player can be in. `scalar` and `vector` are fixed-point numbers, `scan` and `gaps` the
  searches through the players, `shot_gate_stats` and `tackle_stats` the counters of a match.
- `tests/` runs the library on concrete situations.
- `app/` connects the library to an engine that works with floating-point vectors.

A decision is a function of what is given to it: every random draw is a value of the context, and
where an answer from the engine depends on what a state works out, one function gives the question
and another takes the answer.

Quantities are fixed-point numbers. The zero vector has no direction; a spot or a velocity that
rests on such a direction is not a number, and the library gives none for it.
