//! A verified binding-adapter core: a checked two-argument addition together
//! with the coercion and registration logic that a native-extension bridge
//! needs around it. The host-interpreter glue itself lives outside the
//! library; everything here is plain logic with proved contracts.

pub mod adder;
pub mod host;
pub mod registry;
