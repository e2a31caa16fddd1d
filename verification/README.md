# ghostd

A temporary shared clipboard for a local network: one text value that any device
can read (`GET /value`) or replace (`POST /value`), and that is cleared once its
time-to-live has passed.

- `src/` is the verified library: the value and its expiry (`state`), reading
  request bytes as text (`text`), the `Content-Length` headers (`headers`),
  reading a request head with `httparse` (`request`), routing and the answers to
  reads and writes (`service`), and what the server does with one connection
  (`handling`).
- `app/` is the program around it: the warp server, the expiry task, and the
  alternative hyper, TCP and thread front ends.
- `tests/` runs the library on concrete requests.
