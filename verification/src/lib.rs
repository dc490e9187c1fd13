//! A text console for a memory-mapped character display of 25 rows by 80
//! columns: colour packing, the cell grid and the write cursor.

pub mod buffer;
pub mod color;
pub mod demo;
pub mod laws;
pub mod writer;
