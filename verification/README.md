# merix

Merix is a local-first AI runtime: sessions and tasks, an in-memory and a
persistent memory layer, an LLM runtime over llama.cpp, MCP tools and skills.

This crate is written in Verus. `src/` is the verified library:

- `ids`, `json`: UUIDs (as 128-bit values), UTC timestamps, and the JSON values
  carried through the models, with the calls into `uuid`, `chrono` and
  `serde_json` behind trusted wrappers.
- `schemas`, `models`, `records`: the domain models and their builders; the
  database records of sessions and checkpoints.
- `memory`: the ethereal memory layer over `dashmap`, with the law that a load
  gives back what the last store under the same id wrote.
- `runtime`: the core runtime's decisions (start-up configuration, new sessions
  and tasks, the pending → running → completed life cycle of a task).
- `llama`, `resources`: how the inference configuration is tuned to the
  hardware and what loading, offloading and reloading a model do.
- `registry`, `mcp`, `skills`: name-keyed registries of tools and skills, the
  built-in tools and the context analyzer skill.
- `utilities`, `cli`: errors and recovery helpers, the project configuration's
  decisions, and the command line's logging level.

`app/` is the program around it: the `merix` command line, logging set-up,
environment and file-system access, the async memory layer (SurrealDB), the
llama.cpp model handle and the hardware probes.
