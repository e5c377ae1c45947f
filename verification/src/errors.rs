//! The error taxonomy of the reconciliation engine.

use vstd::prelude::*;
use crate::text::{dec_string_of, u64_to_string};

verus! {

/// Why a single resource's reconciliation (or a whole category's listing)
/// failed. Errors are reported per resource and never corrupt the ledger.
#[derive(Debug)]
pub enum SyncError {
    /// A local file could not be read (fatal for that resource's icon step).
    IoError(String),
    /// The icon file referenced by the configuration does not exist.
    AssetNotFound(String),
    /// A remote call returned a non-success status.
    RemoteError(String),
    /// The asset pipeline reported a terminal failure.
    UploadFailed(String),
    /// The asset pipeline exceeded its bounded poll attempts.
    UploadTimeout,
    /// A remote response body could not be understood.
    ParseError(String),
}

impl SyncError {
    /// A short label naming the error variant, for reports.
    pub fn label(&self) -> (r: &'static str)
        ensures
            r@ == self.label_spec(),
    {
        proof {
            reveal_strlit("io error");
            reveal_strlit("asset not found");
            reveal_strlit("remote error");
            reveal_strlit("upload failed");
            reveal_strlit("upload timeout");
            reveal_strlit("parse error");
        }
        match self {
            SyncError::IoError(_) => "io error",
            SyncError::AssetNotFound(_) => "asset not found",
            SyncError::RemoteError(_) => "remote error",
            SyncError::UploadFailed(_) => "upload failed",
            SyncError::UploadTimeout => "upload timeout",
            SyncError::ParseError(_) => "parse error",
        }
    }

    pub open spec fn label_spec(&self) -> Seq<char> {
        match self {
            SyncError::IoError(_) => "io error"@,
            SyncError::AssetNotFound(_) => "asset not found"@,
            SyncError::RemoteError(_) => "remote error"@,
            SyncError::UploadFailed(_) => "upload failed"@,
            SyncError::UploadTimeout => "upload timeout"@,
            SyncError::ParseError(_) => "parse error"@,
        }
    }
}

/// Whether an HTTP status is a success status.
pub open spec fn status_success(status: u16) -> bool {
    200 <= status < 300
}

/// The message a failed remote call is reported with.
pub open spec fn remote_error_message(status: u16, body: Seq<char>) -> Seq<char> {
    "remote call failed with status "@ + dec_string_of(status as nat) + ": "@ + body
}

/// Classifies a remote response by status: success passes, anything else
/// is a remote error carrying the status and the response body.
pub fn check_status(status: u16, body: &str) -> (r: Result<(), SyncError>)
    ensures
        r is Ok <==> status_success(status),
        r matches Err(e) ==> (e matches SyncError::RemoteError(m) && m@ == remote_error_message(
            status,
            body@,
        )),
{
    if 200 <= status && status < 300 {
        Ok(())
    } else {
        let mut msg = String::from_str("remote call failed with status ");
        let num = u64_to_string(status as u64);
        msg.append(num.as_str());
        msg.append(": ");
        msg.append(body);
        proof {
            reveal_strlit(": ");
            assert(msg@ =~= remote_error_message(status, body@));
        }
        Err(SyncError::RemoteError(msg))
    }
}

impl Clone for SyncError {
    fn clone(&self) -> (r: Self)
        ensures
            r == self,
    {
        match self {
            SyncError::IoError(m) => SyncError::IoError(m.clone()),
            SyncError::AssetNotFound(m) => SyncError::AssetNotFound(m.clone()),
            SyncError::RemoteError(m) => SyncError::RemoteError(m.clone()),
            SyncError::UploadFailed(m) => SyncError::UploadFailed(m.clone()),
            SyncError::UploadTimeout => SyncError::UploadTimeout,
            SyncError::ParseError(m) => SyncError::ParseError(m.clone()),
        }
    }
}

} // verus!
