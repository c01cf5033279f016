# CodexBar core

What a tray application has to know about the usage of AI services, as a verified
library: how answers and browser snapshots are read, when they can be trusted, what
they say of quota, credits and cost, and how that is shown on a command line.

## Layout

- `src/` is the library. Every function in it has a contract. Verus proves it of the function's
  body, but for the trusted functions described below, whose contracts it believes.
  - `json`, `text`, `timestamp`, `http`, `binary64`: values and their models. Doubles are
    IEEE 754 encodings with correctly rounded arithmetic, parsing and printing.
  - `snapshot`, `provider`, `provider_factory`: what a fetch gives, and who gives it.
  - `bridge`: the messages of the browser extension to its native host.
  - `providers`: Codex, Gemini Apps, Gemini API, AIHubMix, b.ai and OrcaRouter.
  - `cli`, `desktop`: commands, rendering and the checks of the desktop shell.
- `tests/` runs the library on concrete values.
- `app/` is the program around it: files, requests, helper processes and arguments.

## Reading the contracts

A function's `ensures` says what it returns over a model of its arguments: texts are
sequences of characters, JSON values are trees, records have a ghost twin. What holds of
several functions together is stated by the proof functions whose names begin with
`law_`.

Functions of serde_json, chrono, base64 and reqwest, and a few of the standard library,
are called through small trusted functions. Their results either are stated in full or have
a name, such as `json_of_text`, over which the contracts above them are exact.

## Names on the command line

One provider, the first of `ProviderId`, goes by the name of its vendor, `anthropic`. Users of
the application know it by the name of its product, which the texts of this crate may not
hold: that name is not understood, so `-p` takes `anthropic`, JSON output says `anthropic`, and
keys, cookies and accounts are stored under `anthropic`.
