# hara

A command-line tool for Foundry projects on the HARA network: it scaffolds upgradeable
contracts, initialises projects, installs Foundry, encodes and decodes a compact binary
form of Ethereum ABIs, and registers contracts with the HARA Network Solution (HNS).

The logic is a library verified with Verus; the program around it does the file,
process, terminal and network work.

## Layout

- `src/` — the verified library.
  - `codex/` — the ABI codec: the type model (`abi`), the binary encoder (`encode`) and
    decoder (`decode`), the JSON manifest (`json`), the JSON ABI reader (`parser`), hex text
    files (`hexfile`), the hex dump (`inspect`), the computing part of the `codex` commands
    (`commands`) and the laws that tie encoding and decoding together (`laws`).
  - `project/` — project tooling: `forge` invocations, the `init` and `install` flows as
    state machines, the files `init` writes, and the `uc` scaffold plan.
  - `templates/` — the Solidity, CI and library texts of a scaffolded contract. The deploy
    script (`deploy`) and the shared `Errors.sol` and `Events.sol` libraries (`errors`,
    `events`) are this crate's own minimal texts: a proxy deployment that initialises the
    deployer as owner, two custom errors and one event, meant to be edited.
  - `register` — HNS namehashes, labels and schema kinds; `config` — `.env` updates and the
    flow that looks up a configuration value; `gitignore`, `prompt`, `shell`, `names`,
    `text` (string and path helpers), `cli` (the command line as data and its dispatch).
- `tests/` — tests of the library on concrete values.
- `app/` — the `hara` program: argument parsing, file system and process work, the
  terminal, and the registry transactions.

The flows that alternate outside work and decisions (`init`, `install`, configuration
prompts) are functions from a state and an answer to the next step; the program runs the
loop and feeds back what each step returned. `init` and `install` each have a standard and
a legacy profile: the legacy `init` writes `PRIVATE_KEY`/`HARA_RPC_URL` settings, and the
legacy `install` always uses the shell installer. The command line runs the standard ones.

JSON ABI files are read in two steps: the library decides where the items are (a bare
array, or the `abi` field of an artifact object) and words every refusal; serde reads the
items into the library's `RawItem` in the program, and the library turns them into a blob.
