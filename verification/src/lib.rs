//! Borrows that are held as a copy of the borrowed value's bits.
pub mod closure_drop;
pub mod copy_ref;
pub mod freeze;
pub mod xlib;
