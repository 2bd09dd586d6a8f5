//! Classification engine for bank-statement line items.
//!
//! Raw statement rows are normalised into [`raw_entry::RawEntry`] values,
//! matched against the learned patterns of a [`config::Config`], turned into
//! a [`entry_manager::Classification`] from the answers collected in a
//! [`ui_choices::UiChoices`] bundle, and recorded in an [`ActivityReport`].
//! A [`session::Session`] ties these steps together for one run, and
//! [`ui::UI`] words the questions and reads the answers.
//!
//! The library neither reads nor writes: files and the terminal are the
//! caller's business.
use vstd::prelude::*;

pub mod amount;
pub mod calendar;
pub mod config;
pub mod digest;
pub mod entry_manager;
pub mod persistence;
pub mod raw_entry;
pub mod report;
pub mod session;
pub mod text;
pub mod ui;
pub mod ui_choices;
pub mod yaml;

pub use crate::report::{
    ActivityReport, CategorisedActivityReport, CategorisedEntry, ReportCategory,
};

verus! {

/// The classification axis that separates personal from work activity.
#[derive(Debug, Clone, Copy, PartialEq, Eq, Structural)]
pub enum Sphere {
    Personal,
    Work,
}

/// What kind of money movement a categorised entry records.
#[derive(Debug, Clone, Copy, PartialEq, Eq, Structural)]
pub enum EntryType {
    Expense,
    Income,
    Transfer,
}

} // verus!
