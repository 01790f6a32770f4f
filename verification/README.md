# lite_notes

The verified core of a small always-on-top markdown viewer with two windows.

`src/` decides. Every operation takes the state of the application (`AppData`) and what came
in from outside, changes the state, and returns the effects that are left to carry out, in
order. Each contract states the new state and the effects exactly, over a mathematical model
of the state (`AppModel`). What holds over whole sessions stands in `session.rs`.

- `slot`, `settings`, `data`, `effect`: the state, its invariant, and what is done outside
- `notes`, `push`, `recolor`, `prefs`, `dock`, `window`: the operations
- `json`, `command`, `inbox`: commands, and the order in which they are taken
- `watch`: which directories are watched, and what a change there touches
- `color`, `text`, `size`, `binary64`, `keyed`, `paths`, `case`, `runtime`: the groundwork

Numbers with a fraction are carried as the 64 bits that encode them, so that ranges are held
without floating-point arithmetic.

`app/` is the program around the library: windows, files, the watcher and the clock. It
carries out the effects and hands back what has happened.

Trusted are four functions of `serde_json` that parse a document and read its members
(`json.rs`), and the case mapping of `str` (`case.rs`).
