//! The handlers for reports.

use vstd::prelude::*;
use crate::auth::staff_auth::StaffAuth;
use crate::auxiliary::responses::GenericError;
use crate::auxiliary::uuid_param::{uuid_text, UuidWrapper};
use crate::models::reports::{ClientRemoveReportData, NewReport, PublishReportData, Report};
use crate::routes::flow::{
    ends_with, failure, failure_of, page_offset, Reply, Request, Step, PAGE_SIZE,
};
use crate::routes::product::ends_well;
use crate::stage_machine::StageUpdate;

verus! {

/// The largest report that is taken in, in bytes: twenty megabytes.
pub const UPLOAD_LIMIT_BYTES: u64 = 20000000;

/// Whether a report of `length` bytes is taken in.
pub fn within_upload_limit(length: u64) -> (yes: bool)
    ensures
        yes == (length <= UPLOAD_LIMIT_BYTES),
{
    length <= UPLOAD_LIMIT_BYTES
}

/// The name of the file in which an uploaded report is kept.
pub open spec fn spec_report_filename(file_id: UuidWrapper) -> Seq<char> {
    uuid_text(file_id.0) + ".pdf"@
}

/// The name of the file in which an uploaded report is kept: the identifier
/// drawn for it, with the ending of a PDF.
pub fn report_filename(file_id: UuidWrapper) -> (name: String)
    ensures
        name@ == spec_report_filename(file_id),
{
    let mut name = file_id.to_text();
    name.append(".pdf");
    name
}

/// The answer of a removal or change that succeeded.
pub open spec fn finished_text() -> Seq<char> {
    "完成"@
}

/// Whether a handler ends here with the message of a removal or change that
/// succeeded.
pub open spec fn ends_finished(step: Step<String>) -> bool {
    step matches Step::Done(Ok(text)) && text@ == finished_text()
}

/// What the last step of publishing makes of the number of rows that the
/// conditional update changed: with none, the product was not at a stage
/// from which a report can be published.
pub fn published(rows: usize) -> (out: Step<String>)
    ensures
        if rows == 0 {
            ends_with(out, GenericError::ProductReuseError)
        } else if rows == 1 {
            ends_well(out)
        } else {
            ends_with(out, GenericError::ServerInternalError)
        },
{
    if rows == 0 {
        Step::Done(Err(GenericError::ProductReuseError))
    } else if rows == 1 {
        Step::Done(Ok("成功".to_owned()))
    } else {
        Step::Done(Err(GenericError::ServerInternalError))
    }
}

/// Where the upload of a report stands.
#[derive(Clone, Copy, Debug, PartialEq, Eq, Structural)]
pub enum UploadReportState {
    /// Nothing was written yet.
    AwaitFile,
    /// The file is written; the report is being inserted.
    AwaitReport,
    /// The report is inserted; the product is being updated.
    AwaitStageWrite,
    Finished,
}

/// Uploads a report for a product, in three steps that are not one
/// transaction: the file is written under the name made of `file_id`; the
/// report is inserted with the caller as uploader, `now` as its time and
/// `download_url_base` followed by the file name as its address; one
/// conditional update links the report and takes the product from `Submitted`
/// or `Sampled` to `Finished`. A file that cannot be written ends in an
/// internal error with nothing stored. A failure after that leaves the file,
/// or the file and the report, behind.
pub fn upload_report(
    state: UploadReportState,
    event: Reply,
    staff: StaffAuth,
    product_barcode: &str,
    file_id: UuidWrapper,
    download_url_base: &str,
    now: i64,
) -> (out: (UploadReportState, Step<String>))
    ensures
        match (state, event) {
            (UploadReportState::AwaitFile, Reply::Begin) => {
                &&& out.0 == UploadReportState::AwaitFile
                &&& out.1 matches Step::Ask(Request::StoreFile { filename })
                &&& filename@ == spec_report_filename(file_id)
            },
            (UploadReportState::AwaitFile, Reply::Stored) => {
                &&& out.0 == UploadReportState::AwaitReport
                &&& out.1 matches Step::Ask(Request::InsertReport { report })
                &&& report.uploader_id == staff.user_id
                &&& report.upload_time == now
                &&& report.filename matches Some(name)
                &&& name@ == spec_report_filename(file_id)
                &&& report.download_url@ == download_url_base@ + spec_report_filename(file_id)
            },
            (UploadReportState::AwaitFile, _) => out.0 is Finished && ends_with(
                out.1,
                GenericError::ServerInternalError,
            ),
            (UploadReportState::AwaitReport, Reply::Report(inserted)) => {
                &&& out.0 == UploadReportState::AwaitStageWrite
                &&& out.1 matches Step::Ask(Request::UpdateStage { barcode, update })
                &&& barcode@ == product_barcode@
                &&& update == StageUpdate::spec_publish(inserted.id)
            },
            (UploadReportState::AwaitStageWrite, Reply::Rows(n)) => {
                &&& out.0 is Finished
                &&& if n == 0 {
                    ends_with(out.1, GenericError::ProductReuseError)
                } else if n == 1 {
                    ends_well(out.1)
                } else {
                    ends_with(out.1, GenericError::ServerInternalError)
                }
            },
            (_, other) => out.0 is Finished && ends_with(out.1, failure_of(other)),
        },
{
    match (state, event) {
        (UploadReportState::AwaitFile, Reply::Begin) => (
            UploadReportState::AwaitFile,
            Step::Ask(Request::StoreFile { filename: report_filename(file_id) }),
        ),
        (UploadReportState::AwaitFile, Reply::Stored) => {
            let filename = report_filename(file_id);
            let mut download_url = download_url_base.to_owned();
            download_url.append(filename.as_str());
            (
                UploadReportState::AwaitReport,
                Step::Ask(
                    Request::InsertReport {
                        report: NewReport {
                            uploader_id: staff.user_id,
                            filename: Some(filename),
                            download_url,
                            upload_time: now,
                        },
                    },
                ),
            )
        },
        (UploadReportState::AwaitFile, _) => (
            UploadReportState::Finished,
            Step::Done(Err(GenericError::ServerInternalError)),
        ),
        (UploadReportState::AwaitReport, Reply::Report(inserted)) => (
            UploadReportState::AwaitStageWrite,
            Step::Ask(
                Request::UpdateStage {
                    barcode: product_barcode.to_owned(),
                    update: StageUpdate::publish(inserted.id),
                },
            ),
        ),
        (UploadReportState::AwaitStageWrite, Reply::Rows(n)) => (
            UploadReportState::Finished,
            published(n),
        ),
        (_, other) => (UploadReportState::Finished, Step::Done(Err(failure(&other)))),
    }
}

/// Lists one page of the reports of an uploader.
pub fn get_filtered_reports(event: Reply, page: i32, uploader_id: i32) -> (out: Step<Vec<Report>>)
    ensures
        match event {
            Reply::Begin => if page >= 0 {
                &&& out matches Step::Ask(
                    Request::ListReports { uploader_id: wanted, limit, offset },
                )
                &&& wanted == Some(uploader_id)
                &&& limit == PAGE_SIZE
                &&& offset == page * PAGE_SIZE
            } else {
                ends_with(out, GenericError::InvalidInputError)
            },
            Reply::Reports(rows) => out == Step::Done(Ok::<Vec<Report>, GenericError>(rows)),
            other => ends_with(out, failure_of(other)),
        },
{
    match event {
        Reply::Begin => match page_offset(page) {
            Ok(offset) => Step::Ask(
                Request::ListReports { uploader_id: Some(uploader_id), limit: PAGE_SIZE, offset },
            ),
            Err(e) => Step::Done(Err(e)),
        },
        Reply::Reports(rows) => Step::Done(Ok(rows)),
        other => Step::Done(Err(failure(&other))),
    }
}

/// Lists one page of all reports.
pub fn get_reports(event: Reply, page: i32) -> (out: Step<Vec<Report>>)
    ensures
        match event {
            Reply::Begin => if page >= 0 {
                &&& out matches Step::Ask(
                    Request::ListReports { uploader_id: wanted, limit, offset },
                )
                &&& wanted is None
                &&& limit == PAGE_SIZE
                &&& offset == page * PAGE_SIZE
            } else {
                ends_with(out, GenericError::InvalidInputError)
            },
            Reply::Reports(rows) => out == Step::Done(Ok::<Vec<Report>, GenericError>(rows)),
            other => ends_with(out, failure_of(other)),
        },
{
    match event {
        Reply::Begin => match page_offset(page) {
            Ok(offset) => Step::Ask(
                Request::ListReports { uploader_id: None, limit: PAGE_SIZE, offset },
            ),
            Err(e) => Step::Done(Err(e)),
        },
        Reply::Reports(rows) => Step::Done(Ok(rows)),
        other => Step::Done(Err(failure(&other))),
    }
}

/// Removes a report. Anything but exactly one removed row means that the
/// identifier named no report.
pub fn remove_report(
    event: Reply,
    remove_report_data: ClientRemoveReportData,
    _staff: StaffAuth,
) -> (out: Step<String>)
    ensures
        match event {
            Reply::Begin => out matches Step::Ask(Request::DeleteReport { id }) && id
                == remove_report_data.report_id,
            Reply::Rows(n) => if n == 1 {
                ends_finished(out)
            } else {
                ends_with(out, GenericError::InvalidInputError)
            },
            other => ends_with(out, failure_of(other)),
        },
{
    match event {
        Reply::Begin => Step::Ask(Request::DeleteReport { id: remove_report_data.report_id }),
        Reply::Rows(n) => {
            if n == 1 {
                Step::Done(Ok("完成".to_owned()))
            } else {
                Step::Done(Err(GenericError::InvalidInputError))
            }
        },
        other => Step::Done(Err(failure(&other))),
    }
}

/// Tells where a report can be downloaded.
pub fn get_report(event: Reply, report_id: UuidWrapper) -> (out: Step<String>)
    ensures
        match event {
            Reply::Begin => out matches Step::Ask(Request::FindReport { id }) && id == report_id.0,
            Reply::Report(report) => out matches Step::Done(Ok(url)) && url@
                == report.download_url@,
            other => ends_with(out, failure_of(other)),
        },
{
    match event {
        Reply::Begin => Step::Ask(Request::FindReport { id: report_id.into() }),
        Reply::Report(report) => Step::Done(Ok(report.download_url)),
        other => Step::Done(Err(failure(&other))),
    }
}

/// Where the publication of a hosted report stands.
#[derive(Clone, Copy, Debug, PartialEq, Eq, Structural)]
pub enum PublishReportState {
    AwaitReport,
    AwaitStageWrite,
    Finished,
}

/// The address under which a published report is downloaded: the one that
/// was sent, or else `download_url_base` followed by the file name.
pub open spec fn spec_download_url(
    data: PublishReportData,
    download_url_base: Seq<char>,
) -> Option<Seq<char>> {
    match data.filename {
        None => None,
        Some(filename) => match data.download_url {
            Some(url) => Some(url@),
            None => Some(download_url_base + filename@),
        },
    }
}

/// The address under which a published report is downloaded. A report
/// without a file name has none, whether an address was sent or not.
pub fn download_url(data: &PublishReportData, download_url_base: &str) -> (url: Option<String>)
    ensures
        match url {
            Some(text) => spec_download_url(*data, download_url_base@) == Some(text@),
            None => spec_download_url(*data, download_url_base@) is None,
        },
{
    match &data.filename {
        None => None,
        Some(filename) => match &data.download_url {
            Some(url) => Some(url.clone()),
            None => {
                let mut url = download_url_base.to_owned();
                url.append(filename.as_str());
                Some(url)
            },
        },
    }
}

/// Publishes a report that is hosted already. A report without a file name
/// is invalid input. The report is inserted with the caller as uploader and
/// `now` as its time; then one conditional update links it and takes the
/// product from `Submitted` or `Sampled` to `Finished`. If the update
/// changes no row the product was at no such stage, and the handler ends in
/// `ProductReuseError`.
pub fn publish_report(
    state: PublishReportState,
    event: Reply,
    staff: StaffAuth,
    publish_report_data: &PublishReportData,
    download_url_base: &str,
    now: i64,
) -> (out: (PublishReportState, Step<String>))
    ensures
        match (state, event) {
            (PublishReportState::AwaitReport, Reply::Begin) => match spec_download_url(
                *publish_report_data,
                download_url_base@,
            ) {
                None => out.0 is Finished && ends_with(out.1, GenericError::InvalidInputError),
                Some(url) => {
                    &&& out.0 == PublishReportState::AwaitReport
                    &&& out.1 matches Step::Ask(Request::InsertReport { report })
                    &&& report.uploader_id == staff.user_id
                    &&& report.upload_time == now
                    &&& report.download_url@ == url
                    &&& report.filename matches Some(name)
                    &&& name@ == publish_report_data.filename->0@
                },
            },
            (PublishReportState::AwaitReport, Reply::Report(inserted)) => {
                &&& out.0 == PublishReportState::AwaitStageWrite
                &&& out.1 matches Step::Ask(Request::UpdateStage { barcode, update })
                &&& barcode@ == publish_report_data.product_barcode@
                &&& update == StageUpdate::spec_publish(inserted.id)
            },
            (PublishReportState::AwaitStageWrite, Reply::Rows(n)) => {
                &&& out.0 is Finished
                &&& if n == 0 {
                    ends_with(out.1, GenericError::ProductReuseError)
                } else if n == 1 {
                    ends_well(out.1)
                } else {
                    ends_with(out.1, GenericError::ServerInternalError)
                }
            },
            (_, other) => out.0 is Finished && ends_with(out.1, failure_of(other)),
        },
{
    match (state, event) {
        (PublishReportState::AwaitReport, Reply::Begin) => {
            let url = match download_url(publish_report_data, download_url_base) {
                Some(url) => url,
                None => {
                    return (
                        PublishReportState::Finished,
                        Step::Done(Err(GenericError::InvalidInputError)),
                    );
                },
            };
            let filename = match &publish_report_data.filename {
                Some(name) => Some(name.clone()),
                None => None,
            };
            (
                PublishReportState::AwaitReport,
                Step::Ask(
                    Request::InsertReport {
                        report: NewReport {
                            uploader_id: staff.user_id,
                            filename,
                            download_url: url,
                            upload_time: now,
                        },
                    },
                ),
            )
        },
        (PublishReportState::AwaitReport, Reply::Report(inserted)) => (
            PublishReportState::AwaitStageWrite,
            Step::Ask(
                Request::UpdateStage {
                    barcode: publish_report_data.product_barcode.clone(),
                    update: StageUpdate::publish(inserted.id),
                },
            ),
        ),
        (PublishReportState::AwaitStageWrite, Reply::Rows(n)) => (
            PublishReportState::Finished,
            published(n),
        ),
        (_, other) => (PublishReportState::Finished, Step::Done(Err(failure(&other)))),
    }
}

} // verus!
