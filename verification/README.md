# my-tray-app

A headless system-tray daemon driven by a REST API (`127.0.0.1:3000`), a line
protocol over TCP (`127.0.0.1:4000`) and the tray menu. All front ends send
commands to the main thread, which owns the status and the SQLite store.

* `src/` — the verified library (Verus):
  * `commands` — the commands and the status, with their mathematical views;
  * `controller` — the main thread's state machine: how each command changes
    the status and what outside work follows, with its laws;
  * `tcp_protocol` — reading a protocol line, the replies, the status line;
  * `text` — trimming Unicode white space, comparison, decimal and `Debug`
    renderings;
  * `menu`, `http_api`, `storage`, `icon` — the tray menu, the HTTP answers,
    the SQL of the `tasks` table, and the generated fallback icon.
* `app/` — the program: sockets, SQLite, the tray and the event loop, which
  perform what the library decides.
* `tests/` — tests of the library.
