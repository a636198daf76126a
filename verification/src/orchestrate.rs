//! The capture orchestrator's accounting: what one URL's outcome does to the
//! run. A capture that came back whole is scheduled for writing under its
//! sanitized filename; corrupt bytes are rejected rather than persisted; any
//! failure is recorded against its URL alone and the run continues. Partial
//! success is the expected common case.

use vstd::prelude::*;

use crate::capture::CaptureError;
use crate::imgmeta::{decodes_as_png, validate_png};
use crate::sanitize::{capture_filename, capture_filename_spec};

verus! {

/// Whether a capture outcome is accepted for writing: the capture succeeded
/// and its bytes decode as a complete PNG image.
pub open spec fn accepted_capture(outcome: Result<Vec<u8>, CaptureError>) -> bool {
    match outcome {
        Ok(bytes) => decodes_as_png(bytes@),
        Err(_) => false,
    }
}

/// What one capture run did: the filenames written and the URLs that failed,
/// each in capture order.
pub struct CaptureReport {
    /// The capture filenames scheduled for writing, one per accepted URL.
    pub written: Vec<String>,
    /// The URLs whose capture was rejected or failed.
    pub failed: Vec<String>,
}

impl CaptureReport {
    /// An empty report: nothing written, nothing failed.
    pub fn new() -> (r: CaptureReport)
        ensures
            r.written@.len() == 0,
            r.failed@.len() == 0,
    {
        CaptureReport { written: Vec::new(), failed: Vec::new() }
    }

    /// Fold one URL's outcome into the report. An accepted capture yields the
    /// write the boundary owes — the sanitized filename and the image bytes,
    /// untouched — and is recorded as written; anything else records the URL
    /// as failed and yields no write. No other URL's record moves either way.
    pub fn record(&mut self, url: &str, outcome: Result<Vec<u8>, CaptureError>) -> (w: Option<
        (String, Vec<u8>),
    >)
        ensures
            match w {
                Some(p) => accepted_capture(outcome) && p.0@ == capture_filename_spec(url@)
                    && Ok::<Vec<u8>, CaptureError>(p.1) == outcome && final(self).written.deep_view()
                    == old(self).written.deep_view().push(capture_filename_spec(url@))
                    && final(self).failed == old(self).failed,
                None => !accepted_capture(outcome) && final(self).written == old(self).written
                    && final(self).failed.deep_view() == old(self).failed.deep_view().push(url@),
            },
    {
        let ghost written0 = self.written.deep_view();
        let ghost failed0 = self.failed.deep_view();
        match outcome {
            Ok(bytes) => {
                if validate_png(&bytes) {
                    let filename = capture_filename(url);
                    let ghost wv0 = self.written@;
                    self.written.push(filename.clone());
                    proof {
                        assert(self.written@ == wv0.push(self.written@[wv0.len() as int]));
                        assert(self.written@[wv0.len() as int]@ == filename@);
                        assert(self.written.deep_view() =~= written0.push(
                            capture_filename_spec(url@),
                        ));
                    }
                    Some((filename, bytes))
                } else {
                    let ghost fv0 = self.failed@;
                    self.failed.push(url.to_owned());
                    proof {
                        assert(self.failed@ == fv0.push(self.failed@[fv0.len() as int]));
                        assert(self.failed@[fv0.len() as int]@ == url@);
                        assert(self.failed.deep_view() =~= failed0.push(url@));
                    }
                    None
                }
            },
            Err(_) => {
                let ghost fv0 = self.failed@;
                self.failed.push(url.to_owned());
                proof {
                    assert(self.failed@ == fv0.push(self.failed@[fv0.len() as int]));
                    assert(self.failed@[fv0.len() as int]@ == url@);
                    assert(self.failed.deep_view() =~= failed0.push(url@));
                }
                None
            },
        }
    }
}

/// Failures are isolated and accounted one for one: folding any sequence of
/// outcomes into a report, each URL lands in exactly one of the two records —
/// written under its sanitized filename when accepted, failed under the URL
/// itself otherwise — and the records only ever grow.
pub proof fn lemma_record_partition(
    pre: CaptureReport,
    post: CaptureReport,
    url: Seq<char>,
    accepted: bool,
)
    requires
        accepted ==> post.written.deep_view() == pre.written.deep_view().push(
            capture_filename_spec(url),
        ) && post.failed == pre.failed,
        !accepted ==> post.written == pre.written && post.failed.deep_view()
            == pre.failed.deep_view().push(url),
    ensures
        post.written.deep_view().len() + post.failed.deep_view().len() == pre.written.deep_view().len()
            + pre.failed.deep_view().len() + 1,
        pre.written.deep_view().is_prefix_of(post.written.deep_view()),
        pre.failed.deep_view().is_prefix_of(post.failed.deep_view()),
{
    if accepted {
        assert(pre.written.deep_view().is_prefix_of(post.written.deep_view()));
    } else {
        assert(pre.failed.deep_view().is_prefix_of(post.failed.deep_view()));
    }
}

} // verus!
