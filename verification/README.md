# Pomidor

A pomodoro timer: a daemon that keeps the timer, commands that change it, and a display for a
status bar. The decisions are a library whose contracts are proved with Verus; the program around
it does the input and output.

- `src/time.rs`, `src/text.rs`, `src/path.rs`: points in time and lengths of time, numbers and
  clock times as text, paths.
- `src/config.rs`: the configuration and its defaults.
- `src/timer.rs`: the timer; `src/cycle.rs`: what holds of it over any course of events.
- `src/message.rs`, `src/connection.rs`: the messages and how they are framed.
- `src/daemon.rs`: what the daemon waits for, tells and announces; `src/serving.rs`: how it serves
  one client.
- `src/command.rs`: the commands, and what a client does; `src/protocol.rs`: what daemon and client
  do together; `src/waybar.rs`: what is displayed; `src/args.rs`: where things are found.
- `app/`: sockets, files, sound, notifications, JSON, TOML and the command line.

Where a deadline would lie outside of the calendar, the library says so and changes nothing.
The clock is read and dates are computed by `chrono`, and the user's directories come from `dirs`;
the functions that call them state what is relied on.
