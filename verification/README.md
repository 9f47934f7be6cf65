# aci

Membership tooling for an association: members and leadership kept in a
Drupal (MySQL) database are copied into an application database (Postgres)
and synced to a Mailchimp audience.

The library under `src/` is written in Verus and verified:

- `mailchimp` — the API client's requests, authentication, paging, batches,
  audience members, merge fields and tag updates;
- `ddb` — the Drupal rows, their decoding, deduplication of members, and
  their conversion to application rows and audience members;
- `db` — the application database's rows and the statements that read,
  upsert and prune them, as sequences of SQL text and bound values;
- `cli` — settings and the choices the commands make;
- `chunks`, `codec`, `text`, `date` — shared pieces.

`app/` is the command-line program around the library: it reads settings,
talks to MySQL and to the Mailchimp API, and prints results. `tests/` runs
the library on concrete values.
