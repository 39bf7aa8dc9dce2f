# graceful_shutdown

Tools to wait for pending tasks before a shutdown is finished.

- `src/` is the library, verified with Verus. It holds the state of a shutdown and decides what
  each poll of the futures and streams around it comes to. It does no waiting and no sharing: an
  operation takes the shutdown by `&mut`, is told what polling a wrapped future came to, and
  returns the wakers that are to be woken.
  - `state` encodes the flag and the number of pending tasks in one word.
  - `model` says what each operation does, over the flag, the number and the registered wakers.
  - `laws` proves what holds of histories of operations. Of every history: a shutdown stays
    initiated, a complete one stays complete until a task starts, and nobody who waits for either
    is forgotten. No task is registered twice, where clones of a waker are answered as the waker
    itself. Of a balanced history of a new shutdown, in which no more tasks end than have
    started: it is complete exactly when it has been initiated and every task has ended.
  - `waker` states what is relied on of `std::task::Waker`.
- `app/` makes futures and streams of it. Its handles share one shutdown behind a mutex.
- `tests/` runs the library.

A guard, and every future or stream around a shutdown, belongs to the shutdown that made it. The
contracts ask that it is handed to that one; code that is not verified has to see to it, as `app/`
does by keeping the two together.
