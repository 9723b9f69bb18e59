//! Transcodes typed, columnar record batches into the cells of one worksheet.
//!
//! A batch is a list of named, typed columns of equal length. The first batch
//! of a stream gives the sheet its header row; every batch then adds one sheet
//! row per batch row, each value rendered by the rule of its column's type.
//! Cells that need floating-point arithmetic are not written here: where
//! their position lies on the sheet they are handed back, with that position,
//! for the caller to write.

pub mod calendar;
pub mod cell;
pub mod error;
pub mod laws;
pub mod model;
pub mod sheet;
pub mod transcode;

pub use crate::cell::{render, Cell, CellValue, NumberSource};
pub use crate::model::{Batch, Column, LogicalType, TimeUnit, Value};
pub use crate::error::Error;
pub use crate::transcode::{accept, batch_iter2x, write_batch, write_header, PendingNumber};
