# ferrum_email

Ferrum Email: type-safe, composable email templates rendered to
email-client-safe HTML, and the machinery to send them (console, SMTP with
STARTTLS, direct MX delivery, a relay service), with a command line and a
terminal dashboard on top.

The library under `src/` is written in Verus and verified. Its functions
state in their contracts what they return; the calls into outside crates
(NexusShield, base64, rustls, the clock) are thin trusted wrappers whose
doc comments say what is assumed of them, and the TLS client configuration
(an `Arc<rustls::ClientConfig>`) is carried through without a statement
about its contents. Where an outside result also depends on the clock
(the shield's per-recipient rate window), the contract states what holds
whatever the clock does: a recipient within the limit is always accepted,
and one is refused only after its limit of sends.

- `email_core/` — the `Component` trait, the `Node` tree and its view, and
  the typed style system (colours, spacing, decimals, CSS output).
- `components/` — Html, Head, Body, Preview, Container, Section, Row,
  Column, Text, Heading, Button, Link, Image, Hr, Code, CodeBlock, Spacer.
- `render/` — entity escaping, CSS inlining, HTML emission (compact and
  pretty), plain-text extraction, and the `Renderer`.
- `send/` — messages and mailboxes (parsing and printing), MIME framing,
  the SMTP dialogue as a script driven reply by reply, the direct-MX
  dialogue and delivery plan, the console report, the NexusShield checks,
  and the vault key helpers.
- `relay.rs`, `relay_run.rs` — the relay service's grouping by domain and
  the course of a relay request.
- `tui/` — the dashboard's state, key bindings, sign-in form, built-in
  templates and UTC clock.
- `cli.rs` — the texts the command line builds.

`app/` holds what Verus does not see: the `ferrum` program (command line,
`ferrum tui`, `ferrum relay`, `ferrum example`), the asynchronous providers
that move bytes over TCP and TLS, the HTTP clients, and the terminal
drawing.

`tests/` runs the library on concrete inputs.
