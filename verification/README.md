# minecraft-stats

A service that watches a Minecraft world's stats folder, keeps a database of
the players' statistics, and serves them over a REST and a GraphQL API.

The library under `src/` holds the logic, each function with a contract that
Verus proves:

- `pagination`: page size, offset and sort order of the REST searches.
- `queries`: the statistics query each REST endpoint runs.
- `graphql`: the GraphQL inputs, the queries of its resolvers and its objects.
- `config`: the configuration derived from environment values.
- `player_id`: the hyphenated text of a UUID and the reading of one.
- `paths`: extensions and stems of file names; the player a stats file belongs to.
- `stats_file`: the statistics one stats file records.
- `db_ops`: the decisions around each database operation (tolerated
  failures, finding or creating a category, writing a player row).
- `username_cache`: player names by UUID and UUIDs by name.
- `server`: the answers of the endpoints and the folder watcher's filter.
- `text`: character-level string operations.

`app/` is the program around it: reading the environment and the files,
the database (sea-orm), the HTTP servers (axum, async-graphql), the requests
to the profile services (reqwest) and the folder watcher.
