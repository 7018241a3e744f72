//! A structured-concurrency core: scoped spawn groups over a priority
//! threadpool, an asynchronous FIFO result stream, and the task, suspender
//! and counter state machines they are built from.
//!
//! Every component here is the sequential heart of the construct: the data
//! and the decisions, stated in contracts and proved. The blocking shell
//! (threads, condition variables, real futures) lives outside and drives
//! these state machines.

pub mod arc_lock;
pub mod channel;
pub mod discarding_spawn_group;
pub mod engine;
pub mod err_spawn_group;
pub mod notifier;
pub mod priority;
pub mod pool;
pub mod priority_queue;
pub mod queue;
pub mod spawn_group;
pub mod stream;
pub mod suspender;
pub mod task;
pub mod wait_group;

pub use arc_lock::ARCLock;
pub use arc_lock::CustomArc;
pub use channel::Channel;
pub use channel::DequeueOutcome;
pub use discarding_spawn_group::DiscardingSpawnGroup;
pub use engine::EngineView;
pub use engine::RuntimeEngine;
pub use err_spawn_group::ErrSpawnGroup;
pub use notifier::Notifier;
pub use pool::worker_step;
pub use pool::Indexer;
pub use pool::PoolItem;
pub use pool::ThreadPool;
pub use pool::WorkerAction;
pub use priority::Priority;
pub use priority::TaskPriority;
pub use priority_queue::PriorityQueue;
pub use queue::QueueOrder;
pub use queue::ThreadSafeQueue;
pub use spawn_group::DropAction;
pub use spawn_group::GroupView;
pub use spawn_group::SpawnGroup;
pub use stream::AsyncStream;
pub use stream::StreamPoll;
pub use suspender::Suspender;
pub use task::Task;
pub use wait_group::WaitGroup;
