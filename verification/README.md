# makepress

A service that creates WordPress instances as Docker containers (a MySQL
container and a WordPress container per instance, behind an nginx proxy) and
records database backup jobs in a sled database.

- `src/` is the verified library:
  - `backup.rs`: the record of backup jobs, four shared sled trees keyed by
    job id: the batches a move hands to sled, the stage decided from what the
    reads find, and the laws of moving a job between stages over a model of
    the trees' entries;
  - `sled_store.rs`: the sled types, names for a tree's name and for what a
    write batch holds, and the calls into sled;
  - `backup_job.rs`: the dump a job runs and the answer to a progress request;
  - `config.rs`: the settings and their defaults;
  - `instance.rs`: statuses, labels, instance summaries and instance names;
  - `plans.rs`: the containers and the network the service creates;
  - `init.rs`: the start-up state machine;
  - `text.rs`: text helpers.
- `app/` is the HTTP service around it (`GET /list` answers with the
  instances' names): Docker calls, warp routes, the
  environment and the console.
- `tests/` exercise the library, with real sled databases.

Environment variables: `MAKEPRESS_NETWORK`, `MAKEPRESS_DB_USERNAME`,
`MAKEPRESS_DB_PASSWORD`, `MAKEPRESS_PROXY_LABEL`, `MAKEPRESS_DOMAIN`,
`MAKEPRESS_CERTS`.
