mod channel;
pub mod either;
pub mod future_thread;
pub mod future_thread2;
pub mod polled;
pub mod sink_thread;
pub mod stream_thread;
pub mod unblock_poll_fn;

pub use channel::{QueueReceiver, QueueSender, ReplyReceiver, RequestReceiver, RequestSender, SendAnswers};
pub use either::Either;
pub use future_thread::{FutureThread, FutureThreadFuture};
pub use future_thread2::{
    CallFuture, FutureThread as FutureThread2, FutureThreadError, FutureThreadResult,
    TransformFuture,
};
pub use polled::Polled;
pub use sink_thread::{SinkThread, SinkThreadError};
pub use stream_thread::StreamThread;
pub use unblock_poll_fn::{unblock_poll_fn, UnblockPollFn};
