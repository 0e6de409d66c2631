//! A self-extending byte allocator core: claimed address regions, the policy
//! that doubles the heap when the engine runs dry, the byte-accounting facade
//! around the engine, and the seed source for keyed hashing.

pub mod region;
pub mod layout;
pub mod growth;
pub mod allocator;
pub mod random;
