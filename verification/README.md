# office_fever

The game logic of a short office-horror game built on Bevy, written in Verus
and proved against its contracts.

- `src/` is the verified library. Each module states its rules over plain
  mathematical models (`Seq`, `Map`, integers) and proves the executable code
  against them:
  - `entity_index`: the targetname index (entities by authored name and back),
    kept consistent by a type invariant;
  - `objectives`: the current objective, completion of parents, linking of
    sub-objectives and the layout of the objective tree;
  - `interactables`, `interaction`: hover texts, relays and hints;
  - `asset_tracking`: requested assets that wait or have finished;
  - `level`, `level_select`: the level cycle and the level-select screen;
  - `door`, `npc`, `audio`, `dialogue`, `scripting`, `reflection`, `fever`:
    the decision rules that the engine systems run.
  Laws that relate several operations are public proof functions named
  `lemma_*`.
- `app/` is the engine side: components with Bevy derives, systems and hooks
  that read the world, hand plain values to the library and write the result
  back. Float arithmetic (temperatures, hinge angles, volumes) stays there.
- `tests/` runs the library on concrete values.

Entities cross into the library as their bits (`Entity::to_bits`).
