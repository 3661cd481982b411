# deepseek_harness

The verified core of a desktop shell for dsh, the DeepSeek harness: one window that checks
and installs what dsh needs, starts its web server, shows its page, and keeps dsh and itself
up to date.

- `src/` is the library. Its functions state what they do in `requires` and `ensures`, and
  Verus proves them. Work that touches the machine is written as runs: a run takes a reply
  and gives a turn, which is a list of effects and then one more request or the end of the
  run (`protocol`). `laws`, `laws_text` and `order` hold what is proved of the library as a
  whole. What is trusted of `semver`, `serde_json`, `url` and the standard library stands in
  `outside`, apart from `String::push`, which stands in `text`.
- `app/` is the shell around it: windows, processes, files, the network. It carries out what
  the runs ask for and hands back the replies. What needs floating point, the layout of the
  window and the share of a download, is worked out there.
- `tests/` runs the library on concrete values.
