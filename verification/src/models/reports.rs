//! Reports: the documents published for a product.

use vstd::prelude::*;

verus! {

/// A report as the store holds it. Its identifier is a 128-bit token; times
/// are seconds since the epoch.
#[derive(Clone, Debug, PartialEq, Eq)]
pub struct Report {
    pub id: u128,
    pub uploader_id: i32,
    pub filename: Option<String>,
    pub download_url: String,
    pub upload_time: i64,
}

/// A report that is about to be stored.
#[derive(Clone, Debug, PartialEq, Eq)]
pub struct NewReport {
    pub uploader_id: i32,
    pub filename: Option<String>,
    pub download_url: String,
    pub upload_time: i64,
}

#[derive(Clone, Copy, Debug, PartialEq, Eq, Structural)]
pub struct ClientRemoveReportData {
    pub report_id: u128,
}

/// What a staff member sends to publish a report that is already hosted.
#[derive(Clone, Debug, PartialEq, Eq)]
pub struct PublishReportData {
    pub product_barcode: String,
    pub filename: Option<String>,
    pub download_url: Option<String>,
}

} // verus!
