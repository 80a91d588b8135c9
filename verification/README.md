# starbound

The rules of a space-exploration game, written in Verus with contracts
that state what each rule computes, and proofs of the properties that
hold across rules.

- `src/` is the verified library: cargo holds and contract progress,
  contract offers, consequences, crew conversation bookkeeping, NPC
  dialogue and menus, rumor selection, reputation history, travel
  checks, the language-model prompts (system and encounter messages)
  and reply checks, and the simulation's galaxy rules (faction
  decisions and spread, generation keys and texts, the layout of a
  system's locations, naming people, claiming and developing systems
  during ticks, travel options).
- `tests/` runs the library on concrete cases.
- `app/` holds what the library leaves to the game around it: reading
  template files and settings, the HTTP client for the language model
  and the encounter request built on it, the SQLite save file, and the
  calculations done in floating point (such as orbital distances, fuel
  and the two clocks of a journey).

Random draws go through `rand`'s seeded generator; their contracts say
what holds of every draw.

Not carried here, in either part: the game's floating-point machinery.
That is skill-check resolution, supply consumption, applying event
effects, the rumor scanners' scoring (trade, faction, thread and local
colour), galaxy generation as a whole (positions, routes, economies,
faction presence, ethos and relationships), the galaxy and faction
tick orchestration, reputation axes, and the crew's conversation
topics. The library holds the discrete rules these lean on, and the
types those parts work on are not part of this crate.
