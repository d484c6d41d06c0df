//! Fetch-decode-dispatch core of a 65816-class CPU emulator.
//!
//! The processor's defining complexity is that nearly every addressing mode
//! and instruction has two behaviourally distinct forms, 8-bit and 16-bit,
//! selected at run time by a status flag.  This crate resolves that width
//! once per instruction: a mode-dispatch gate reads the flag, the addressing
//! resolvers produce a tagged value or address of the matching width, and the
//! instruction handlers consume the tag — so no handler ever re-inspects the
//! flag, and no width-mismatched path can execute.

pub mod instructions;
pub mod machine;
pub mod memory;
pub mod width;
