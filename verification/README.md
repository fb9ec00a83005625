# game_overlay

The decision logic of a game overlay, written in Verus and proved against
its contracts.

The library never touches another process itself. Wherever a decision
depends on the game's memory, it is written as a step function: it takes
the answer to the last read (`reads::ReadReply`) and gives back the next
read to perform (`reads::ReadRequest`), a pause, a shot, or its verdict.
The caller performs the reads.

- `handles`: how an entity handle selects a chunk and a slot of the game's
  entity list.
- `entity`: the entity record, its update from memory, bone lookups, the
  skeleton collection and the enemy filter.
- `aim`: when aiming is active and who may be aimed at; the trigger run.
- `memory`: the game process and its modules, executable recognition,
  NUL-terminated strings, the view matrix layout.
- `esp`: the recorded screen size and the drawing decisions (colour sets,
  health tiers, skeleton lines, text outlines).
- `config`: the switches, keys and delays of the settings.
- `keys`: the "held down" bit of a key state word.
- `offsets`: field offsets and bone indices.
