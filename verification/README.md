# azrath

The verified core of a hybrid blocking/async HTTP server built on hyper.

- `src/` is the library, verified with Verus:
  - `config`: the server configuration, the default of each setting, the
    resolution of the settings that the config file and the `AZRATH_`
    environment variables hold, and the address to bind;
  - `error`: the executor's and the reactor's errors and their messages;
  - `http`: the request/response `Body`, its synchronous `BodyReader`, and
    the `ReaderStream` that turns a blocking reader into body chunks;
  - `executor`: the bookkeeping of the worker thread pool;
  - `net`: the readiness bookkeeping of the reactor's sockets;
  - `server`: the server builder and the hand-over of its settings to
    hyper's connection builder;
  - `builder`: hyper's connection builder together with the record of the
    settings handed to it.
- `app/` is the runtime around it: loading the configuration, the worker
  threads, the mio event loop, and the hyper accept-and-serve loop.
- `tests/` exercises the library.
