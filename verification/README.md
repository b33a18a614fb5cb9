# RustShell

A remote shell and single-file transfer client for devices that run RustDesk, with a stdio MCP server. The
decisions of the program are a verified library: what each message, each answer and each lapse of time means,
what is sent next, when a transfer is resumed, and what every result says.

## Layout

- `src/` is the library. Verus proves every function in it against its contract.
  - `text`, `codec`, `json`: text, encodings and JSON documents.
  - `frame`, `script`, `echo`, `exec`: one command on the remote device and the frame in which its result comes back.
  - `message`, `handshake`, `crypto`: from a device's number to a logged-in, encrypted connection.
  - `transfer`, `push`, `pull`: upload and download of one file, and where they resume.
  - `keys`, `terminal`: the interactive terminal.
  - `session`, `session_loop`: the sessions that another program drives over lines of JSON.
  - `pool`, `resume`, `mcp`: the tools, the sessions behind them, and transfers that reconnect.
  - `config`: command line, environment and exit codes.
- `app/` is the program around it: sockets, files, processes, the local terminal and the protocol messages.
- `tests/` runs the library on concrete values.

## How it is built

Each part that waits for something is a state with a step: it takes one event and gives the next thing to do, or
the error that ends it. The program performs that and comes back with the next event. Times are milliseconds on a
clock of the program's own.

The contracts say what a step does in terms of spec functions such as `push_next` or `handshake_next`. Public proof
functions whose names begin with `law_` state what holds across steps: that a login request goes to no one but the
device that was asked for, that a resumed transfer starts within the partial file, that a command which was
interrupted or took too long is never run again, that one transfer takes at most 32 new connections.

What is believed rather than proved is marked `external_body` or `assume_specification`, next to the call that it
describes: `base64`, `serde_json`, `sha2`, `sodiumoxide`, `uuid` and a few functions of the standard library.
