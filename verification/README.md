# behavior_sim

An agent in a 2D world follows one of three behaviors — stay idle, move to a
target, move away from a threat — chosen with panel buttons and aimed at the
selected target. A behavior completes when the agent is close enough to its
destination or far enough from its threat, and the agent then falls back to idle.

- `src/` is the verified decision logic, generic over the location type:
  - `behavior`: the behavior state machine (completion, transition, guidance,
    selection) and its laws;
  - `messages`: behavior change requests and how a batch of them is applied;
  - `input`: the response to the selection buttons and to clicks on targets;
  - `ui`: button labels, panel order and the status line.
- `app/` is the Bevy program around it: components, systems, rendering and the
  floating-point geometry (distances, velocities, integration).
- `tests/` exercises the library on concrete values.
