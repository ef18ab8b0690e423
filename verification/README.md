# maker_dashboard

Verified core of a dashboard that runs several openswap makers.

* `src/` (Verus): maker configuration and its normalisation, the maker
  registry (`MakerManager`) with its lifecycle decisions (create, start, stop,
  restart, update with rollback, remove, auto-start), port assignment, the
  bitcoind tracking state, the `config.toml` field mapping and maker
  discovery, and the request/response shapes of the HTTP API.  Work on the
  world is requested through caller-supplied functions (`MakerIo`, port
  probes, file readers and writers), so every decision is verified for every
  answer those functions may give.  Each operation's `requires` admits
  exactly the requests it may make, contents included (`create_request`,
  `start_request`, `update_request` and their kin: for instance, writing a
  maker's files only with its resolved configuration, a rollback write only
  once the new configuration can fail, and nothing at all for an unknown
  maker), and its `ensures` names the requests it must have made.  Starting bitcoind is split in two: the
  registry decides (`start_bitcoind`), the caller spawns the process and
  records it (`bitcoind_started`).
* `app/`: the file-system, process, openswap and HTTP code around it.
* `tests/`: executable tests of the library.
