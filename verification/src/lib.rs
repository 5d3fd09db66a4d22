//! A safety layer between a host application's C plugin interface and typed,
//! owned resources.
//!
//! The host hands out opaque handles and later fires callbacks with an opaque
//! context pointer. This crate holds the decisions of that bridge: what is
//! handed to the host at a registration, what becomes of its answer, what a
//! trampoline does when the host fires it, and which calls release a
//! resource, in which order. The calls themselves are values of
//! [`host::HostCall`]; whoever embeds the crate performs them and feeds the
//! host's answers back in.
//!
//! A resource goes through three states. It starts as a
//! [`host::Registration`]: a context box and the call that registers it.
//! Completing the registration with the host's answer gives the owning
//! handle, or nothing where the host refused. Removing or freeing the handle
//! consumes it and gives the call that releases the resource, together with
//! the context box, which is to be dropped after the call was made. No
//! handle can be copied, so no resource is released twice. An option is
//! freed against the configuration file that holds its section: once the
//! section is gone, the host has freed the option with it, and the handle
//! has no call left to give.

pub mod config;
pub mod config_options;
pub mod hdata;
pub mod hooks;
pub mod host;
