# tgfs

A read-only FUSE filesystem whose tree of files and directories lives in a
SQLite node table and whose account is a Telegram client.

- `src/` is the library, verified with Verus:
  - `node`: the node model, database times, and the FUSE attributes of a node;
  - `requests`: the queries that lookup, getattr and readdir make and the
    replies they give (directory listings with their offsets);
  - `session`: which session file a client uses: each one the folder listed,
    once and in order, then new random ones;
  - `sign_in`: the sign-in dialogue as a state machine (at most four passwords);
  - `client_factory`: connecting a client, signing it in where needed and
    saving its session, as a state machine;
  - `prompt`: what a line typed at a prompt answers (trimmed of white space);
  - `settings`, `schema`: the configuration model and fixed names.
- `app/` is the program: terminal, files, database, Telegram and FUSE. It
  performs the actions the library's machines ask for and feeds the outcomes
  back as events.
- `tests/` exercise the library on concrete values.
