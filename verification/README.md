# Atlas Observer (verified library)

Atlas Observer runs beside MBAACC with CCCaster, follows a ranked netplay match through the
game's memory, checks that it follows the rules of ranked play and reports the result to the
ranking server.

- `src/` is the library, verified with Verus:
  - `game`: characters, moons, players, timers and the game state read from memory.
  - `memory`: decoding the values read from MBAA and CCCaster (`addresses`, `process`), finding
    session ids in memory (`reader`), and the memory watcher as a state machine (`watcher`,
    with its decisions in `thread`).
  - `validation`: the match result and its rules (`result`), the phase machine that follows the
    screens of a match (`validator`), and the run of the validator thread over the game states
    of a session, which stops at the first state that breaks the rules (`thread`).
  - `client`: the client's state, the server's answers and how responses are judged (`http`).
  - `runner`: the ranked-mode runner as a state machine; `ui`: typed commands and the input line;
    `config`: the settings.
- `app/` is the program around it: the Windows memory reads, process listing, HTTP requests,
  configuration file, threads and the terminal interface. It runs the library's state machines.
- `tests/` exercise the library on concrete values.
