//! Blocks of memory of a chosen size, for putting a system under memory
//! pressure, for benchmarks, or for standing in for a program that holds a
//! lot of memory.
//!
//! A [`mem::Memory`] is made for a number of bytes, kilobytes, megabytes,
//! gigabytes or terabytes. The allocator is asked in a way that lets it say
//! no, and every byte of what it grants is written, so that the memory is
//! really taken. Both ways in which making a block can fail come back as a
//! [`mem::MemoryError`]; there is no constructor that ends the process
//! instead.

pub mod mem;
