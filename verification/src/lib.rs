use vstd::prelude::*;

pub mod aim;
pub mod config;
pub mod entity;
pub mod esp;
pub mod handles;
pub mod keys;
pub mod memory;
pub mod offsets;
pub mod reads;

verus! {
}
