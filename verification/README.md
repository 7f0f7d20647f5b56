# ketchup_mod

The gameplay rules of a fighting-game plugin, verified with Verus: which
buffered inputs survive, how far a fighter's environment-collision box is
raised in the air, how jump squat ends (jump, wavedash, rising air dodge, up
special, up smash), which momentum is remembered and reapplied, and when
jump, dash, land and shield cancels apply.

- `src/` holds the rules as functions from plain values (status and fighter
  ids, command bit masks, and the outcomes of float comparisons) to
  decisions, each with a contract over spec functions, plus the laws that
  relate them. The game's constants arrive at run time in a `GameConsts`
  table.
- `app/` is the plugin around them: hook installation, reading the fighter
  from the game, the float formulas, and applying each decision.
- `tests/` runs the rules on concrete values.
