//! The decisions of a streaming download: which HTTP answers count as
//! success, the announced length, and when to report progress.

use vstd::prelude::*;
use crate::text::{chars_of, parse_u64_range, parse_unsigned};

verus! {

/// Progress is reported once more than this many bytes arrived since the
/// last report.
pub const REPORT_EVERY: u64 = 262144;

/// Whether an HTTP status code is a success (2xx).
pub fn is_success_status(status: u16) -> (r: bool)
    ensures
        r == (200 <= status && status < 300),
{
    200 <= status && status < 300
}

/// The total size announced by a `Content-Length` header, where it is
/// there and reads as a `u64`.
pub fn content_length(header: Option<&str>) -> (r: Option<u64>)
    ensures
        match header {
            Some(h) => match parse_unsigned(h@, u64::MAX as nat) {
                Some(v) => r == Some(v as u64),
                None => r is None,
            },
            None => r is None,
        },
{
    match header {
        Some(h) => {
            let v = chars_of(h);
            let n = v.len();
            let r = parse_u64_range(&v, 0, n);
            proof {
                assert(v@.subrange(0, n as int) =~= h@);
            }
            r
        },
        None => None,
    }
}

/// How much of a download has arrived, and how much had when progress was
/// last reported.
pub struct DownloadProgress {
    pub written: u64,
    pub last_report: u64,
}

impl DownloadProgress {
    /// Never more than `REPORT_EVERY` bytes go unreported.
    pub open spec fn wf(&self) -> bool {
        self.last_report <= self.written && self.written - self.last_report <= REPORT_EVERY
    }

    /// Nothing arrived yet.
    pub fn new() -> (r: Self)
        ensures
            r.wf(),
            r.written == 0,
            r.last_report == 0,
    {
        DownloadProgress { written: 0, last_report: 0 }
    }

    /// Records `n` more bytes and says whether to report progress now: when
    /// more than `REPORT_EVERY` bytes arrived since the last report.
    pub fn record(&mut self, n: u64) -> (report: bool)
        requires
            old(self).wf(),
            old(self).written + n <= u64::MAX,
        ensures
            final(self).wf(),
            final(self).written == old(self).written + n,
            report == (old(self).written + n - old(self).last_report > REPORT_EVERY),
            final(self).last_report == (if report {
                final(self).written
            } else {
                old(self).last_report
            }),
    {
        self.written = self.written + n;
        if self.written - self.last_report > REPORT_EVERY {
            self.last_report = self.written;
            true
        } else {
            false
        }
    }
}

} // verus!
