# chan_thread

Futures, sinks and streams served by a worker thread, with the logic that
decides what they do verified by Verus.

- `src/` is the verified library. Each handle (`FutureThread`,
  `FutureThread2`, `CallFuture`, `TransformFuture`, `SinkThread`,
  `StreamThread`) holds its end of a channel and, generically, the handle of its
  worker thread; its polls, sends, error mapping, closing protocol and release
  are verified, as is each step of each worker loop.
- The ends of the `futures` queues carry a ghost record (`QueueSender`,
  `QueueReceiver`): which queue they belong to, what was queued through a
  handle, whether the handle is still linked, and whether the queue was
  closed. The contracts state each send, close and disconnect over that
  record, and that a handle's end and its worker's end belong to one queue.
  The calls into `crossbeam_channel` and `futures` stand behind the trusted
  items of `src/channel.rs`.
- `app/` starts and joins the threads, runs the worker loops, awaits, and
  implements `Future`, `Sink`, `Stream` and `Drop` on top of the library.
- `tests/` drive the library by hand, worker steps included, on one thread.
