//! Small verified building blocks: a single-slot memoizing cache, generic
//! points, summaries, counters, smart-pointer helpers, a quota tracker and
//! a handful of value types.
pub mod closures;
pub mod enums;
pub mod generics;
pub mod smart_pointers;
pub mod iterators;
pub mod structs;
pub mod traits;
