# litter_terminal

Remote terminals for a mobile client: Eternal Terminal sessions that run in a
local pseudo terminal, and terminals in a channel of an SSH connection.

`src/` holds the decisions as verified Verus code, from plain values to plain
values:

- `text`: white space, searching and decimal notation
- `shell`: quoting for POSIX shells, and a model of how a shell reads a line
- `command`: the commands that run on a host
- `error`: SSH errors and the terminal errors that they are reported as
- `idpass`: drawing, handing over and reading back an id and passkey
- `bootstrap`: which host keys are trusted, and how an id and passkey is obtained,
  step by step
- `client`: how the client is started, step by step
- `stream`: what a session's output and end turn into
- `channel`: how a terminal is opened over SSH, step by step

`app/` performs what `src/` decides: connections, pseudo terminals and threads.
The SSH client and the trust store come in through the traits in `app/ssh.rs`.
