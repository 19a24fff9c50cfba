# dsh_desktop

The decision logic of a desktop shell around the DeepSeek Harness (`dsh`) web
interface, verified with Verus.

- `src/` — the verified library:
  - `version` — the lightweight `major.minor.patch` comparison (`semver_gt`) and its laws;
  - `paths` — engine locations, the npm/npx next to node, the PATH given to child processes;
  - `node` — locating the system node (nvm versions tried newest first);
  - `engine` — engine kinds, their entry scripts and versions, and which engine is used;
  - `launch` — the command that starts `dsh web`, reading its address, waiting for old servers;
  - `boot` — the connect and restart requests as steps from event to action;
  - `updates` — dsh and application update status;
  - `messages` — the install precondition and the error messages of failed steps;
  - `text` — string helpers (white space, joining, string order).
- `app/` — the Tauri application: commands, processes, files, HTTP, and the
  serializable copies of the library's reply types.
- `tests/` — tests of the library on concrete values.
