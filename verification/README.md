# buoyant

The verified core of a Linux file explorer. The library (`src/`) holds the explorer's
logic with Verus contracts: how a folder listing is filtered, ordered and selected in, how
key bindings are written and matched, what the settings file changes, how file types are
told, what a paste, move or new path comes to, the clipboard and the notifications. The
program around it (`app/`) draws the window with `eframe`/`egui`, reads the disk and the
settings file, and runs pastes on a thread of their own; it asks the library at every
decision.

Layout of `src/`:

- `app` (with `app/sorting`): panels, entries, selection, dialogs, what an action does.
- `config`: key bindings, sorting, view and clipboard settings.
- `input`: which binding the keys of a frame call for.
- `clipboard`, `toasts`: the explorer's clipboard and its notifications.
- `file`, `file_types`, `file_system`, `path`, `paths`, `types`: files, their types and
  names, paths as `std::path` reads them, and the steps of pasting and creating.
- `ui`, `theme`: sizes, dates and colours as shown.
- `laws`: what holds across operations.
- `text`, `order`, `selection`: strings, sorting keys and index sets.
