# cognitord

A line-based JSON request daemon. The library in `src/` holds its logic with
Verus contracts:

- `tokens`: the token estimate (four bytes per token, rounded up).
- `text`: white space, trimming, prefixes and decimal notation over characters.
- `config`: the configuration's settings, their checks and the processing subset.
- `process`: request checks, the rendered output, usage and the response.
- `protocol`: what the daemon and the interactive mode answer to a line.
- `outside`: the calls into `uuid`, `chrono` and `std::time`, with what is trusted of them.

`app/` is the program around it: command line, configuration file, logging,
JSON on stdin and stdout.
