//! Reports.

use vstd::prelude::*;

verus! {

/// A row of a report, which may hold rows of its own.
#[derive(Debug, PartialEq)]
pub struct ReportRow {
    pub row_type: String,
    pub title: Option<String>,
    pub cells: Vec<Box<ReportCell>>,
    pub rows: Vec<Box<ReportRow>>,
}

/// A cell of a report row.
#[derive(Clone, Debug, PartialEq)]
pub struct ReportCell {
    pub value: Option<String>,
    pub attributes: Vec<ReportAttribute>,
}

/// An attribute of a report cell.
#[derive(Clone, Debug, PartialEq)]
pub struct ReportAttribute {
    pub value: String,
    pub id: String,
}

/// A field of a report's header.
#[derive(Clone, Debug, PartialEq)]
pub struct ReportField {
    pub field_id: String,
    pub description: String,
    pub value: String,
}

} // verus!
