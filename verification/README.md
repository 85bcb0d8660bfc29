# pi_agent

The runtime of a coding agent: the loop that streams a model's responses, runs its tools, delivers
waiting messages and keeps a session. Every rule of that loop is a function in `src/` whose contract
Verus proves.

## How it is laid out

* `src/` is the verified library. What takes time or touches the world (providers, tools, files,
  extensions) is not in it. Where the loop has to wait for such a thing, the library holds a state
  machine: it says what to do next, and takes what came of it.
  * `run`, `stream`, `tool_run`, `tool_exec`: a run of the agent, one streamed response, the tool calls
    of a response, one tool call with its hooks. `run_laws` and `tool_laws` state what holds of every
    run and of the tool calls of every response.
  * `turn`, `session`, `command`, `compact`, `extensions`, `selection`: a turn of a session, what is
    written down, commands and idle runs, compaction, enabling extensions, switching models.
  * `queue`, `effects`, `content`, `limits`, `latency`, `semantic`, `host`, `input`, `pi_ai`: the rules
    that these use. `semantic_laws` states what holds of every context prompt.
  * `agent`, `model`, `event`, `json`, `error`, `text`, `clock`: the data.
* `tests/` runs the library on concrete values; `tests/runs.rs` drives all the machines together.
* `app/` is the asynchronous shell: it performs what the machines ask for.

## How to read a contract

A type such as `Run` has a mathematical value `RunView`. A machine's contract relates worlds: the
machine, the agent and the events before a step, to the same after it. `RunWorld::step` is that relation
as a function, and `Run::step_at` is proved to compute it. Proof functions that are public state laws
over these functions.
