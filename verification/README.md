# ssmanager

The launcher of a shadowsocks manager: it declares the command line options, puts what was
given into the configuration of the manager, and decides step by step how the manager is
brought up. The decisions are verified with Verus.

* `src/` is the verified library.
  * `options`, `help`, `target`: the options as values, for every target.
  * `cli`: declares them with `clap`. `numbering` proves that they can be declared together,
    `lookups` that every option which is read is declared.
  * `vparser`, `arguments`: read single values and whole command lines.
  * `config`: a configuration, opened up, and what options change in it.
  * `error`: what can go wrong, and what is said then.
  * `launch`: hands out actions, takes in what came of them.
  * `laws`, `outcomes`: what holds of command lines, configurations and launches.
  * `outside`: the types of other crates that pass through.
* `app/` performs the actions: files, the log, the process and the runtime.
* `tests/` runs the library with the crates that it stands on.
