# Paper Composer

Paper Composer assembles the material of a paper (papers, algorithms,
images, tables, notes) in project folders on this machine, each mirrored to a
Google Drive folder. A local HTTP bridge on `127.0.0.1:53683` serves the front
end: it keeps the Drive settings, scans the workspace folder for projects,
syncs project folders with Drive and answers each endpoint.

## Layout

- `src/` — the library, verified with Verus:
  - `models` — the project data model;
  - `config`, `storage` — the Drive settings, the workspace settings and where
    settings and projects live;
  - `http` — the bridge's HTTP framing: when a request has arrived, its parts,
    its endpoint, and the text of a response;
  - `drive` — the Drive client interface, the OAuth consent address, token
    handling and the requests sent to the Drive REST API;
  - `assets` — which files of a project folder or a Drive folder are PDFs and
    JSON, which to fetch, which to send, and how folders are listed and summed
    up;
  - `bridge` — the replies and decisions of every endpoint;
  - `flows` — the order of the steps of adding, uploading, deleting and
    syncing a project, as state machines the program drives;
  - `json` — small JSON objects written and read by `serde_json`;
  - `text`, `numeric`, `search`, `order`, `paths` — text, decimal numbers,
    searching, ordering and stable sorting, and file paths.
- `app/` — the bridge program: the TCP server, the disk, the network calls to
  Google, and the JSON forms of the library's types.
- `tests/` — tests of the library on concrete values.

## Sync rules

- At start-up the workspace folder is scanned for subfolders holding a
  `project.json`; the projects are listed by name and those with a Drive folder
  are synced.
- A PDF already in the project folder is not fetched again; JSON files take
  Drive's latest content, except the project's own `project.json`.
- Saving writes the local `project.json`, then sends it and every PDF and JSON
  file of the folder to Drive; a file Drive already holds is updated in place.
- Deleting a project overwrites its Drive `project.json` with a deletion
  marker before its local folder is removed; a marked project is not synced
  again, and nothing else is fetched once its marker is seen.

The order of these steps is proved in `flows`; the steps themselves (disk and
network) are performed by `app/`. Paths are joined by the standard library,
whose separator is the platform's.
