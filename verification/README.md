# ecdysis

Graceful restarts: replacing a running network service by a new generation of itself, without
dropping what it is serving. This library has the following goals:

* No old code keeps running after a successful upgrade
* The new process has a grace period for performing initialisation
* Crashing during initialisation is OK
* Only a single upgrade is ever run in parallel

`src/` holds the decisions, verified with Verus. Nothing in it performs I/O: it says what to do, and
is told what happened.

* `executioner` and `inheriter`: the two sides of an upgrade, parent and child.
* `handover`: a transaction that moves application state and open descriptors to the child. The
  protocol's guarantees are stated and proved in `handover::laws`.
* `supervisor` and `trigger`: what stops when, and what sets it off.
* `systemd_notify` and `systemd_sockets`: messages to systemd, and the sockets that it passes.
* `fd_flags` and `text`: flags of descriptors, and numbers and lists as text.

`app/` performs what is decided: sockets, pipes, processes, threads, clocks and Tokio.

Calls into `nix`, `bincode` and the standard library that Verus does not read stand in functions
marked `external_body` and in one `assume_specification`; each says what is taken on trust.
