# cli_backend

Chat completions in the OpenAI format, served by a command line agent.

A request becomes one prompt, the agent is run with it, and the lines that the agent writes
become either one whole answer or a stream of chunks.

- `src/` is the library, verified with Verus. It starts no process, opens no connection and
  reads no environment: it decides what to run, reads the lines of output that it is given, and
  says what to send.
  - `message`: requests, and the prompt that they become
  - `config`, `agent`: the settings, the command to run, and what can go wrong
  - `json`, `parser`: a line of output as JSON, and what it says
  - `output`: what a run passes on, line after line
  - `collect`: one whole answer
  - `stream`: an answer piece by piece, as a state machine
  - `reply`: what a request is answered
  - `platform`: what a client says of its platform
  - `text`: strings
  - `laws`: what holds of all this together
- `app/` is the HTTP service around it.
- `tests/` holds the tests of the library.

What is not proved is marked `external_body` or `assume_specification`: the calls of
`serde_json`, `http` and `uuid`.
