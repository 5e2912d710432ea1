# kaggle_tpu_companion

Core of the Kaggle TPU desktop companion, verified with Verus, and a thin
shell around it.

- `src/` — the verified library: the launch profile and its settings-file
  text (`settings`), the Pi
  provider documents and checks (`pi`, on the JSON model in `json`, which
  reads and writes JSON text through serde_json), the sync
  protocol with backups and rollback as a state machine (`pi_sync`), the tray's
  texts, menu and actions (`tray`), and the character-level helpers they share
  (`text`).
- `app/` — ordinary Rust: reading and writing the settings file, the Pi files
  and their backups,
  and the `pi` CLI process. It performs the
  I/O that the library's functions ask for.
- `tests/` — tests of the library on concrete values.
