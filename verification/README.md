# githut

A terminal interface for finding, browsing and grabbing GitHub repositories,
with its logic written as a verified library.

- `src/` is the library, verified with Verus: text fields with a byte
  cursor, path expansion, the application state and its key handling (each
  key press gives the next state and the outside work to do, as a
  `Command`), search history, GitHub request paths and payload decoding,
  directory listing order, markdown layout, and what each part of the screen
  says. Calls into `urlencoding`, `base64` and `pulldown-cmark` stand behind
  small trusted wrappers whose contracts say what the crates do.
- `app/` is the program around it: the terminal, drawing with `ratatui`,
  the GitHub requests with `octocrab`, clones with `git2`, and the files.
- `tests/` runs the library on concrete inputs.
