//! Verified core of a few small tools: a text-keyed store
//! with publish/subscribe channels, a wake-up signal and a task loop for an
//! executor, a FIFO task queue, argument parsing for a file finder, and a
//! handful of sequence and string utilities.
pub mod keyed;
pub mod redis;
pub mod signal;
pub mod executor;
pub mod compare;
pub mod intersec;
pub mod buffer;
pub mod my_rc;
pub mod hash_map;
pub mod myfind;
pub mod log;
pub mod redis_client;
