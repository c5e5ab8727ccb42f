# sshe

The `sshe` tools choose, for a logical host name, the endpoint that answers
fastest, cache that choice for a while, and hand the connection on to
OpenSSH; `sshea` and `sshed` open an authenticated session for agents.

- `src/` is the library, verified with Verus: configuration validation and
  resolution, the ordered string-keyed map that holds hosts and cache
  entries, cache lookups and updates, endpoint selection, the frame format
  and the hello exchange of the agent protocol, and the string and path
  helpers they rest on, and the steps of the cache policy (a refresh skips
  the cache, a hit is used, a miss or a failed read leads to probing, a
  probed result is kept whether or not storing it worked). Every public
  function states what it returns in its `ensures`, except for what the
  system clock reads: the functions that read it state what holds whatever
  the reading. The laws that span functions (reading back a stored cache
  entry, the outcome of a whole probing race, framing round trips, the
  handshake) are public proof functions.
- `app/` is the program around it: command lines, files, the environment,
  probing endpoints over the network, serde's TOML and JSON, and the async
  runtime. Run under the name `ssher`, `sshea` or `sshed` it is that tool,
  otherwise the `sshe` wrapper. The wrapper's command line has no
  `--refresh-cache`: it takes the options its argument definition lists, and
  always consults the cache first.
- `tests/` exercises the library on concrete values.
