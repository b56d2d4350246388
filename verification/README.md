# axum_listener

Listeners for Axum that serve TCP and Unix domain sockets side by side.

- `src/` is the verified library: the address model (`dual`), the reading of
  address strings (`parse`), the `Duplex*` names (`listener`) and the
  combination of many listeners (`multi`). Its contracts and laws are checked
  by Verus.
- `app/` holds the socket work on top of tokio and axum: resolving host
  names, binding, accepting, the streams, and the `axum::serve::Listener`
  implementations. It hands the library plain values and follows its
  decisions.
- `tests/` runs the library on concrete addresses.
