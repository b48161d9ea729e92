//! Work that runs beside the poll loop.

pub mod bg;
