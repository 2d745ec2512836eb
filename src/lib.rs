//! Translates per-sheet spreadsheet instructions into an xlsx document.
//!
//! - `color` parses hex color strings.
//! - `style` resolves a list of format directives into one cell style.
//! - `plan` turns each instruction into the primitive encoder calls it makes.
//! - `sink` carries those calls out on rust_xlsxwriter's worksheet.
//! - `translate` runs a whole workbook, all or nothing.
//! - `error` is the error that ends a translation.

pub mod color;
pub mod style;
pub mod error;
pub mod plan;
pub mod sink;
pub mod translate;
