//! Normalisation of tabular "viewing period" exports into one canonical record.
//!
//! A viewing period is an interval during which a monitoring device tried to
//! identify a media stream. Producers export them as comma- or tab-separated
//! text with differing column names, units and time representations. This
//! crate maps a header onto the canonical fields, reads each cell with the
//! reader its column calls for, and derives the dependent fields while the
//! row is folded, column by column.

pub mod number;
pub mod row_laws;
pub mod text;
pub mod time;
pub mod tsv_reader;
pub mod viewingperiod;
