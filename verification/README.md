# greptime_services

The verified core of three parts of a time-series database:

- `tls`: the TLS options of the protocol servers, loading the server configuration
  they name, and reloading it when the certificate files change.
- `services`: the servers of a frontend, what each of them is made of, and the order
  in which they are built.
- `alter_logical_tables`: the procedure that alters logical tables on top of one
  physical table.

`sequences` holds two passes over vectors that they share.

Reading files, watching them, parsing addresses, reaching the cluster and creating
servers happen outside. Each part says what is to be done next, takes what came of
it, and goes on. The contracts say what each answer leads to. The `laws` modules say
what follows for a whole run: what a setup, a build or a step of the procedure ends
with for every combination of answers.

`app/` does the work that is asked for. `tests/` runs the parts on concrete values.
