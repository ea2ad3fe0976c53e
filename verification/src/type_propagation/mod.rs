//! Passes that propagate return types of Objective-C allocation and initialisation calls.
pub mod alloc_init;
pub mod msg_send_init;
pub mod super_init;
