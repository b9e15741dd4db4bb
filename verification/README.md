# llmux

A hook-driven multiplexer for language models. One model is active at a time; requests for another
one wait while the active model is drained and put to sleep and the other one is woken, by scripts
that the configuration names.

- `src/` is the verified core: configuration, the FIFO policy, the list of models, and the switcher
  as a state machine from events to actions. `src/switcher/model.rs` is its mathematical model and
  `src/switcher/laws.rs` what is proved of it.
- `app/` is the program around it: files, processes, timers, channels and HTTP.
- `tests/` runs the core.

Of two models, the one with the higher priority value is the more important. A model without a
priority counts as low. A request does not switch to its model while a more important one is active
or has requests waiting. A switch holds its lock until every request it told has settled or gone.
