pub mod graveyard;
pub mod message;
pub mod worker;
pub mod pool;
pub mod dispatch;
pub mod config;
pub mod single;
pub mod multi_pools;
