# simadmin

The verified core of the SimAdmin backend, a web console for Linux cellular
routers, written in Verus.

- `src/` is the library. Every function carries a contract that Verus proves,
  except three small trusted wrappers around std (`HashMap` equality,
  collecting characters into a `String`, `str::to_lowercase`), whose
  contracts are stated from std's documentation.
  - `config`: the configuration tree, its defaults, the migration of the
    legacy webhook section and the in-memory `ConfigManager`, whose states
    always keep the legacy section equal to the webhook channel.
  - `sysinfo`: uptime rendering, `/proc/meminfo` figures, the `uname` line.
  - `cpu`: `/proc/stat` time counters, `/proc/cpuinfo` cores, core names.
  - `disk`: choosing one mount point per device from `/proc/mounts`, usage
    figures, and the listing order.
  - `net`: address scopes, the address lines printed by `ip` and
    `ifconfig`, and the order in which the ways of reading addresses are
    tried.
  - `ifaces`: interface records from the files under `/sys/class/net` and
    the modem's bearer counters.
  - `text`: whitespace, lines, words, decimal numbers and text order, stated
    over character sequences.
- `app/` reads the files, runs libc and the address tools, parses and writes
  the JSON configuration file, and computes the floating-point figures; it
  hands what it reads to the library.
- `tests/` runs the library on concrete inputs.
