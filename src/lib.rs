//! Static disassembler for the program ROM of NES cartridges.
//!
//! [`instruction`] decodes one 6502 instruction into assembler text,
//! [`labeller`] names the destinations of branches, jumps and subroutine
//! calls, and [`cartridge`] reads a cartridge image, walks its code from the
//! interrupt vectors and renders the listing. [`traversal`] states what that
//! walk guarantees, and [`text`] renders numbers.

pub mod cartridge;
pub mod instruction;
pub mod labeller;
pub mod text;
pub mod traversal;
