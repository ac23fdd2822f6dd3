# sumrzr

The library behind a local meeting summariser: the catalogue of language
models it can download, the models found on disk, and the decisions that drive
a download and the local `llama-server` process.

- `src/` is verified with Verus. Every public function carries a contract over
  character sequences and plain values, and the properties that span several
  functions are stated and proved as `lemma_*` proof functions.
  - `text`: decimal notation, suffix and substring operations on text.
  - `file_names`: which files are models, the name of a partial download.
  - `model_download`: the catalogue, lookups, and the status of each model.
  - `local_models`: the models found in the models directory.
  - `download`: the steps of a download, as a state machine.
  - `inference`: the steps of starting `llama-server`, as a state machine.
  - `server_wait`: waiting until a started server answers, as a state machine.
- `app/` is the Tauri application around it: commands, file system, sockets,
  HTTP and the process itself. It performs the work the state machines ask for
  and reports the outcome back.
- `tests/` exercise the library on concrete values.
