# spotlight_windows

A desktop file-search launcher for Windows (Ctrl+Space opens a search
window over an index of your files).

- `src/` is the verified library: which paths are indexed and what an index
  entry holds, what a file-system change does to the index, how candidates
  are scored (skim fuzzy matching plus directory and recency bonuses),
  filtered, ordered and cached (moka), how sizes and dates are shown, the
  tray icon picture and tooltip, and the state machines of the search
  windows. Each public function states its result; the laws of the library
  (read-after-write of the cache, ordered and bounded rankings, exclusions
  respected by the watcher, selection staying in range, ...) are proof
  functions.
- `app/` is the program around it: the Tantivy index on disk, the file-system
  walk and watcher, the global hotkey, the tray icon and the egui windows.
- `tests/` runs the library on concrete values.
