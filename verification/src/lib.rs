//! Address types and page-table management for the AArch64 translation regime with a
//! 4 KiB granule and four levels of lookup.
//!
//! - [`addr`]: virtual and physical addresses, alignment, table indices.
//! - [`paging`]: pages and frames of three sizes, translation tables and their entries, the
//!   memory that holds the tables, and three mappers that walk and change a hierarchy of
//!   tables: through a conversion from physical to virtual addresses, through a linear
//!   mapping at an offset, and through a recursive entry of the level 4 table.
//! - [`translation`]: the translation table base registers and the instructions that
//!   invalidate cached translations.
//! - [`barrier`] and [`instruction`]: the instructions that the library asks its caller to
//!   execute.
//! - [`registers`]: the contents of system registers and their fields.
//! - [`trap`]: the registers that are saved when a trap is taken.
//! - [`bits`] and [`fields`]: bit ranges and register fields, computed by the `bit_field`,
//!   `cast` and `tock_registers` crates.
//!
//! The library touches no hardware. It works on the contents of tables and registers, keeps a
//! journal of the changes to the tables with the store barriers between them, and hands the
//! instructions that have to be executed to its caller.

pub mod addr;
pub mod barrier;
pub mod bits;
pub mod fields;
pub mod index;
pub mod instruction;
pub mod paging;
pub mod registers;
pub mod translation;
pub mod trap;
