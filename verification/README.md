# bootty_app

The decision logic of the Bootty terminal's window shell, written in Verus and proved against
its contracts: the command catalog, copy-mode keys, mouse-selection routing, multiplexer key
routing and session/tab/pane/space navigation, the native split layout's reconcile plan,
generated session names, remote reattach backoff, progress and ports, pointer shapes, scripted
diagnostic actions, configuration reload, key-binding dispatch and the one-dialog-at-a-time
overlay rule, what a frame runs before drawing and its repaint wait, and the configuration
switches the shell reads.

- `src/` — the verified library. Each module states its behaviour over spec functions and
  proves it; the public `lemma_*` proof functions state properties that hold across calls.
- `tests/` — tests of the library on concrete values.
- `app/` — the thin layer around it that needs egui, the system font database, the OS
  keep-awake API or the process environment.
