//! Host side of a plugin framework that drives sandboxed guest modules
//! once per frame with timing and event data.
//!
//! The heart of the crate is the memory-interop subsystem between the host
//! and a guest module: a bump allocator carved out of one fixed arena
//! ([`bump`]), the hook entry points through which the host drives a
//! guest-resident allocator ([`hooks`]), a fixed-layout event envelope
//! protocol ([`events`]), and the per-module lifecycle and dispatch state
//! machine ([`plugins`], [`dispatch`]).

use vstd::prelude::*;

pub mod bump;
pub mod cmd;
pub mod dispatch;
pub mod env;
pub mod events;
pub mod ext;
pub mod fps;
pub mod guest;
pub mod hooks;
pub mod meta;
pub mod plugins;

verus! {

/// Status codes crossing the host-guest boundary. Only primitive integers
/// cross that boundary, so each variant has a fixed wire value, returned by
/// [`gers_error_t::code`]. New kinds must be appended, never renumbered.
#[allow(non_camel_case_types)]
#[derive(Clone, Copy, Debug, PartialEq, Eq, Structural)]
pub enum gers_error_t {
    Success,
    GenericError,
    /// Request to an allocator has invalid arguments.
    BadAlloc,
    /// System has run out of memory.
    OutOfMemory,
    /// Allocator has run out of memory space.
    NoSpace,
    /// Allocation or reset was called, but the allocator has not been initialized.
    AllocUninitialized,
}

impl gers_error_t {
    /// The wire value of this status code, as agreed with guest modules.
    pub open spec fn spec_code(self) -> u8 {
        match self {
            gers_error_t::Success => 0,
            gers_error_t::GenericError => 1,
            gers_error_t::BadAlloc => 2,
            gers_error_t::OutOfMemory => 11,
            gers_error_t::NoSpace => 12,
            gers_error_t::AllocUninitialized => 13,
        }
    }

    /// Flatten the status to the integer that crosses the boundary.
    pub fn code(&self) -> (c: u8)
        ensures
            c == self.spec_code(),
    {
        match self {
            gers_error_t::Success => 0,
            gers_error_t::GenericError => 1,
            gers_error_t::BadAlloc => 2,
            gers_error_t::OutOfMemory => 11,
            gers_error_t::NoSpace => 12,
            gers_error_t::AllocUninitialized => 13,
        }
    }
}

} // verus!
