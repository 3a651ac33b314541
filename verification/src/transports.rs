//! Plain descriptions of the backends that the runtime is wired to.

pub mod etcd;
pub mod nats;
pub mod tcp;
