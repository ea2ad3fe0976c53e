//! Verified decision logic of a set of Objective-C analysis passes for Binary Ninja:
//! removing reference counting calls from the low level IL, and propagating the return
//! types of allocation and initialisation calls in the medium level IL.  The passes read
//! plain-value models of the IL and ask the binary database through closures; they hand
//! back what to change, for the plugin to carry out.

pub mod activity;
pub mod llil;
pub mod lookup;
pub mod mlil;
pub mod plugin;
pub mod remove_memory_management;
pub mod type_propagation;
pub mod types;
pub mod util;
