//! The calls this library makes into other crates. Each function here is a
//! thin wrapper whose contract Verus takes on trust; the doc comment of each
//! says which outside function it calls and what is claimed of it.

pub mod calendar;
pub mod chance;
pub mod ids;
pub mod passwords;
pub mod strings;
pub mod token;
