# git-board

A live terminal dashboard for GitHub Actions runs and open pull requests,
built on the GitHub CLI (`gh`).

The crate has two parts:

- `src/` is the library, verified with Verus. It holds the settings and
  their merging (flags over the configuration file over defaults), the
  column lists, which runs each layout shows and in what order, the
  dashboard's state machine (every key press, refresh outcome, clock tick
  and login result), the arguments handed to `gh`, the shared-cache
  decisions and every text the dashboard draws. Each public function states
  its result in its `ensures`; the properties that span several calls
  (selections stay inside their tables, the panels' focus stays in range,
  typing then deleting a character gives the state back, cancelling the
  config panel keeps the settings, the run order is a strict total order
  listing each visible run once, and more) are public proof functions named
  `lemma_*`.
- `app/` is the program around it: argument parsing with clap, the
  configuration file (toml), JSON with serde, the shared cache on disk,
  child processes, and drawing with ratatui.

`tests/` runs the library on concrete values.
