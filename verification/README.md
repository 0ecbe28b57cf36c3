# centaur_session_sqlx

A session store on PostgreSQL whose rules are verified with Verus.

A session belongs to a conversation. It has executions, messages and events, it
may be assigned a sandbox, and input for the sandbox is delivered through durable
delivery rows. Sandboxes may be traced under the consent of an actor.

Every change of a row is a function in `src/`: it takes the rows that its
transaction has locked, and the time and random values that the database has
drawn, and answers with the rows to be written. Its contract says exactly when
the change is made and what the rows are afterwards. `app/` holds the SQL: it
locks and reads rows, asks the function, and writes what it decides.

## Modules of `src/`

- `text`, `truth`, `time`, `ids`, `digest`, `json`: texts, nullable predicates,
  spans, identifiers, the fingerprint of input lines, JSON documents.
- `model`, `rows`, `error`: the values callers see, the rows they are read from,
  and the refusals.
- `session`, `messages`, `notification`: sessions, their messages, notifications.
- `execution`, `terminal`, `creation`: stdout leases, ends and replacements,
  creation with idempotency keys.
- `delivery`, `claim`, `flush`: input deliveries from claim to flush.
- `assignment`, `reconciliation`, `warm`, `idle`: sandbox assignments, the lock of
  a reconciler, the warm pool, idle and capacity listings.
- `trace_config`, `consent`, `consent_change`, `trace_input`: the active trace
  configuration, consent and drains, input to traced sandboxes.
- `ordering`, `listing`: the order of time; rows that qualify, put in order and read,
  or the first refusal.
- `*_laws`, `invariants`: what holds across these functions, and what every change
  of a delivery, an execution, a consent, the trace configuration, an assignment or
  a warm sandbox keeps.

Instants are nanoseconds from the Unix epoch. A function that depends on the time
takes it as an argument; `Clock` tells the time of the transaction's start from
that of the statement.
