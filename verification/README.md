# hello_actix_web

A newsletter subscription service (actix-web, PostgreSQL, an e-mail delivery API), whose
logic is a Verus-verified library.

- `src/` is the library, verified by Verus: settings and the names of configuration files,
  database connection strings, the validation of subscriber names and e-mail addresses,
  subscription tokens, the confirmation e-mail, the course of a subscription request (a state
  machine from step outcome to next step or HTTP status), and the outcomes of a confirmation.
- `app/` is the program around it: reading the configuration files, the HTTP server and its
  handlers, the SQL queries and the HTTP calls to the e-mail service.
- `tests/` runs the library on concrete values.
