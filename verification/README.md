# killbill

A USB kill switch: while armed, an unauthorized USB change powers the machine off, so that a
LUKS-encrypted disk re-locks. This project is the part of it that decides something, written in
Verus and proved against its contracts, with ordinary Rust programs around it.

## Layout

| Path | What it holds |
|---|---|
| `src/proto/` | The messages between daemon and clients, their frames, time stamps, and what is safe to show of a device's own strings. |
| `src/killbilld/` | The daemon: config validation, the policy engine, the uevent parser, the responders, the control socket's rules, and the core that owns the armed state. |
| `src/killbilld/daemon/` | The core as a state machine: `step` says what each message does and which effects follow, in order; `authority` does it; `journal` holds the lines it logs; `laws` says what then always holds. |
| `src/killbillctl.rs` | What the command-line client sends and prints. |
| `src/tui/` | The terminal UI: its state, what each key and event does to it, and every screen as styled rows. |
| `src/text.rs` | Characters, numbers, lines and words. |
| `app/` | The programs `killbilld`, `killbillctl` and `killbill-tui`: sockets, threads, files, JSON and TOML, the terminal, and the system calls that cut the power. |
| `tests/` | What the library does on given inputs. |

## Invariants

Messages and comments refer to these by number.

1. **The kill path is sacred.** Once a kill decision is made, nothing may block or delay the
   poweroff. The dispatch is the first effect of the message that calls for it.
2. **Fail closed.** An invalid config means that the daemon refuses to arm, loudly. It never
   guesses intent, and a rejected change or reload leaves the running config as it was.
3. **Header destruction stays a stub.** Its config, validation, screen and messages are real; the
   wipe is not implemented.
4. **Dangerous things need a distinctly named opt-in.** Destruction takes an acknowledged config
   section and a runtime toggle, and the terminal UI asks for a typed word besides.
5. **Disarm is a socket command, never a signal.** A signal stops the process, skips no decision
   that is already queued, and never aborts a kill that is under way.
6. **No shelling out with built strings.** Responders act through typed calls.
7. **Sensors fail loud.** What cannot be parsed counts as lost events, never as "no devices seen".
8. **No network, no telemetry.** The only IPC is the local Unix socket.
