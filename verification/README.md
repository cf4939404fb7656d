# annihilate

The terminal front-end of the Annihilation LLM workflow: menus, a live
dashboard of the optimization run, results, chat and benchmarks, with the
Python tools it drives spawned as child processes.

- `src/` is the verified library: the output-line parser, the application
  state machine (every screen's key handling, the run's progress, the chat and
  benchmark streams, scroll offsets), the command lines of the spawned tools,
  the files kept beside the project (`.env`, recent models, checkpoint
  journals), and text layout. Each transition takes the state and an event and
  returns the next state and the outside work to perform, as `Effect`s.
  `laws.rs` and the other modules' public proof functions state what holds
  across calls.
- `app/` is the program around it: the terminal, drawing with ratatui, the
  child processes and their reader threads, the clipboard, the file system and
  the system readings. It performs each `Effect` and reports what it found
  back to the library.
- `tests/` exercises the library on concrete values.
