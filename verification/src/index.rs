//! Distinct index newtypes.
//!
//! Every index in the binary format is an unsigned 32-bit number and encodes
//! identically, but each kind is kept as its own nominal type so that, say, a
//! table index cannot be handed to something expecting a function index.

use vstd::prelude::*;

verus! {

#[derive(Clone, Copy)]
pub struct TypeIndex(pub u32);

#[derive(Clone, Copy)]
pub struct FunctionIndex(pub u32);

#[derive(Clone, Copy)]
pub struct TableIndex(pub u32);

#[derive(Clone, Copy)]
pub struct MemoryIndex(pub u32);

#[derive(Clone, Copy)]
pub struct GlobalIndex(pub u32);

#[derive(Clone, Copy)]
pub struct LocalIndex(pub u32);

#[derive(Clone, Copy)]
pub struct LabelIndex(pub u32);

} // verus!
