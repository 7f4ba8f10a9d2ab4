# neutrino_drive

The rules of Neutrino Drive, a self-hosted cloud drive, as a Verus library:
every function in `src/` carries a contract that Verus proves, over
in-memory models of the drive's tables.

## Layout

- `src/` — the verified library.
  - `rows`, `seqs`, `text`, `pagination`: table scans, filtering lemmas,
    string helpers and paged, ordered listings that the modules share.
  - `permissions`: roles on files and folders, inheritance up the folder
    tree, grants, revocations and ownership transfer that never leave a
    resource without an owner.
  - `storage`: quotas and daily caps, uploads, version history with a
    bounded length, restores, listings.
  - `filesystem`: folders, moves, shortcuts, bulk operations, the trash and
    its 30-day retention.
  - `sharing`, `irm`: share links and the rights-management policies that
    restrict downloads, printing and copying by role.
  - `access`: the checks that guard downloads, previews, edits and uploads.
  - `jobs`: the background-job queue, claims, timeouts, and the dispatch
    decisions (round-robin, failure counting, deregistration).
  - `archive`: listing the entries of a ZIP archive and packing files into
    one for bulk downloads.
  - `auth`: bearer tokens, their signature and their expiry.
  - `shared_drives`, `notifications`, `security`, `priority`, `search`,
    `encrypted_store`, `error` (statuses, codes and messages).
- `tests/` — tests of the library on concrete values.
- `app/` — the HTTP server: configuration, routes, file and network I/O, and
  the loop that hands jobs to workers. It holds no rule of its own; every
  decision is a call into the library.

