# ImmichSync

ImmichSync watches folders for new photos and videos and uploads them to an
Immich server. It lives in the Windows system tray.

The decisions of the program stand in a library that is verified with Verus; a
thin program around it carries them out.

- `src/` is the library. Every function states in its contract what it returns
  or changes, and Verus proves it.
  - `db`, `db_store`: the tables, and the queue of uploads in them.
  - `upload`: hashing, times of files, the queue, one upload from its start to
    its end, the worker loop, the trash.
  - `watch`: which files are taken, when a file is written completely, which
    folders are watched, network folders, removable drives.
  - `api`: addresses, headers, forms and errors of the server's interface.
  - `app`: the state of the running program, watching, the first scan.
  - `ui`: the tray and what its windows hold.
  - `platform`: installation, migration, registry, autostart, shortcuts, logs,
    the encryption of the API key.
  - `config`, `startup`, `updater`, `clock`, `paths`, `text`.
- `app/` is the program: files, SQLite, HTTP, watchers, windows and the calls
  into Windows. It asks the library for the next action, performs it, and hands
  back what happened.
- `tests/` runs the library on concrete values.

What the library takes from other crates (`aes-gcm`, `base64`, `chrono`, `dirs`,
`glob`, `hostname`, `kamadak-exif`, `reqwest`, `semver`, `serde_json`, `sha1`)
stands behind small functions marked `external_body`. Verus believes their
contracts; the comment above each says what it claims.
