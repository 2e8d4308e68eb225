//! Boot-time segmentation state for a 64-bit kernel.
//!
//! Three components, run in order during early bring-up: the exception-stack
//! provisioner ([`stack`]) computes the top of a statically reserved region
//! for the double-fault handler; the table builder ([`tss`], [`gdt`])
//! constructs a Task State Segment carrying that stack top and a Global
//! Descriptor Table with the five descriptors a minimal kernel needs, plus
//! the selectors that reference them. Loading the tables into live CPU state
//! is left to the caller: it takes privileged register writes that cannot be
//! expressed here.

pub mod gdt;
pub mod stack;
pub mod tss;
