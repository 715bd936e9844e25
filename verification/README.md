# myme

The verified core of MyMe, a developer productivity hub: notes, GitHub
repositories and workflows, projects and kanban boards, organizations and
prospects, Google mail and calendar, weather, and developer tools (encoding,
hashing, UUIDs, JWT, JSON and time).

The desktop application drives each view through a model.  Here every model
is a plain state machine: an invokable method takes the model and the
answers it needs (what the store listed, whether a token is stored, what a
service returned) and gives the next state together with the request to
send or the signals to raise.  Verus proves each method against a contract
stated over the model's fields.

## Layout

- `src/` — the library, verified with Verus.
  - `models/` — the view models (notes, repositories, projects, kanban,
    organizations, prospects, workflows, weather, calendar, mail, Google
    and GitHub sign-in, and the developer tools).
  - `services/` — service errors and their messages, the messages that
    asynchronous operations send back, the shared service slots, and the
    decisions the services make (which GitHub list a refresh uses, how an
    RFP hit becomes a lead, how workflows are ordered).
  - `weather/` — weather conditions, the cache's freshness rules, place
    names and the order in which the location is looked up.
  - `json/` — JSON text of lists and one level of a JSON document.
  - `codec.rs`, `digests.rs`, `uuids.rs`, `dates.rs`, `text.rs`,
    `numbers.rs`, `order.rs`, `stamp.rs` — text, bytes, dates and
    identifiers, mostly through the outside crates that compute them.
- `tests/` — tests of the library on concrete values.
- `app/` — the I/O around it: files, HTTP requests, the OAuth redirect
  listener, the weather cache file, and the floating-point weather figures.

Calls into outside crates go through small trusted functions marked
`#[verifier::external_body]`; each one's doc comment names the function it
calls and what its contract claims of it.
