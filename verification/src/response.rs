//! Typed shapes of the provider's JSON response envelopes.
//!
//! Every response carries a `Status` tag; the operation-specific payload in
//! `Result` is meaningful only when the status is `Success`.

use vstd::prelude::*;

verus! {

/// Status tag carried by every provider response envelope.
#[derive(Debug, Clone, Copy, PartialEq, Eq, Structural)]
pub enum ResultStatus {
    Success,
    Failed,
}

/// Document encoding that a retrieve operation asks the provider for.
#[derive(Debug, Clone, Copy, PartialEq, Eq, Structural)]
pub enum DownloadFormat {
    PDF,
    TIF,
}

impl DownloadFormat {
    /// Wire value of the format; it doubles as the local file extension.
    pub open spec fn str_spec(self) -> Seq<char> {
        match self {
            DownloadFormat::PDF => "PDF"@,
            DownloadFormat::TIF => "TIF"@,
        }
    }

    pub fn as_str(&self) -> (r: &'static str)
        ensures
            r@ == self.str_spec(),
    {
        match self {
            DownloadFormat::PDF => "PDF",
            DownloadFormat::TIF => "TIF",
        }
    }
}

/// Which provider queue an operation applies to.
#[derive(Debug, Clone, Copy, PartialEq, Eq, Structural)]
pub enum Direction {
    IN,
    OUT,
}

impl Direction {
    /// Wire value of the direction.
    pub open spec fn str_spec(self) -> Seq<char> {
        match self {
            Direction::IN => "IN"@,
            Direction::OUT => "OUT"@,
        }
    }

    pub fn as_str(&self) -> (r: &'static str)
        ensures
            r@ == self.str_spec(),
    {
        match self {
            Direction::IN => "IN",
            Direction::OUT => "OUT",
        }
    }
}

/// One entry of an inbox listing.  All fields are opaque provider text except
/// `FileName`, the composite `<file-name>|<details-id>` identifier that the
/// resolver splits.
#[derive(Debug)]
#[allow(non_snake_case)]
pub struct InboxItem {
    pub FileName: String,
    pub ReceiveStatus: String,
    pub Date: String,
    pub CallerID: String,
    pub RemoteID: String,
    pub Pages: String,
    pub Size: String,
}

/// Envelope of a list-inbox operation.
#[derive(Debug)]
#[allow(non_snake_case)]
pub struct Inbox {
    pub Status: ResultStatus,
    pub Result: Option<Vec<InboxItem>>,
}

/// Envelope of a retrieve operation; `Result` holds the base64 document body
/// when the status is `Success`.
#[derive(Debug)]
#[allow(non_snake_case)]
pub struct RetrieveFaxResponse {
    pub Status: ResultStatus,
    pub Result: Option<String>,
}

/// Envelope of a delete operation; `Result` holds a human-readable message.
#[derive(Debug)]
#[allow(non_snake_case)]
pub struct DeleteFaxResponse {
    pub Status: ResultStatus,
    pub Result: String,
}

} // verus!
