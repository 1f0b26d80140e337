# mwifiex NL80211 Wi-Fi RF test mode

A user space implementation of the Wi-Fi RF test mode and OTP programming
commands of Marvell/NXP cards driven by the mwifiex driver, sent as nl80211
test mode messages. The library is written in Verus: each function states
what it computes in its `requires`/`ensures`, and Verus proves it.

## Layout

- `src/` — the verified library
  - `wire.rs`: little-endian integers in byte sequences
  - `ffi.rs`: the packed firmware structures, their byte layout and bit fields
  - `command.rs`: the test mode commands, their encoding into host command
    buffers and the decoding of firmware responses, with the proof that a
    command decodes from its own encoding
  - `procfs.rs`: the legacy `key=value ...` procfs command syntax
  - `interactive.rs`: the menu, the questions asked for each command and the
    command that the answers make
  - `runner.rs`: sequence file variables, `${name}` substitution and the
    decisions taken while a sequence runs
  - `netlink.rs`: the nl80211 numbers, the interface lookup and the dry run
  - `pretty.rs`: the pretty-printed debug text of a command (`{:#?}`)
  - `util.rs`, `text.rs`: MAC addresses, hexadecimal data, `str`-like helpers
    and the side-by-side display of a request and its response
- `tests/` — tests of the library
- `app/` — the command line tool: argument parsing (clap), netlink I/O (neli,
  nix), prompts (inquire), YAML sequence files (serde, serde-saphyr) and
  colored output

## Usage

```sh
mwifiex_nl_test_mode --interactive
mwifiex_nl_test_mode -f sequence.yaml --set channel=116 --card-type 9098
mwifiex_nl_test_mode --dry-run -f sequence.yaml
mwifiex_nl_test_mode procfs-cmd "tx_continuous=1 0 0 0 0 7"
```
