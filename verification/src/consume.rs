use vstd::prelude::*;
use crate::diag::diag_line_text;
use crate::diag::diagnostic_line;
use crate::meter::FrameEvent;
use crate::meter::metered;
use crate::meter::meter_frames;
use crate::meter::sat64;
use crate::store::RecordV;
use crate::store::UrlHistory;
use crate::store::UrlRecord;
use crate::timefmt::Timestamp;

verus! {

/// How one communication unit's upstream exchange ended: a delivered
/// response with its status code and the body frames observed while
/// relaying it, or a failed exchange with nothing to meter.
pub enum UnitOutcome {
    Delivered { status: u16, frames: Vec<FrameEvent> },
    Failed,
}

/// Records one accepted unit's URL at its arrival time.  The consumer
/// calls this before the unit's request is forwarded upstream, so a
/// mid-forward crash still leaves the attempted access recorded.
pub fn record_arrival(store: &mut UrlHistory, url: String, time: Timestamp)
    ensures
        final(store)@ == old(store)@.push(RecordV { url: url@, time }),
{
    store.append(UrlRecord { url, time });
}

/// Finishes one unit once its response future has resolved.  A failed
/// exchange is skipped: nothing is metered, no line is emitted, and the
/// record made on arrival is never revisited.  A delivered response has
/// its body frames accounted — up to the first mid-stream error — and
/// yields the unit's diagnostic line.
pub fn finish_unit(client: &str, uri: &str, outcome: &UnitOutcome) -> (diag: Option<String>)
    ensures
        (outcome is Failed) == (diag is None),
        outcome matches UnitOutcome::Delivered { status, frames } ==> (diag matches Some(line)
            && line@ == diag_line_text(client@, uri@, status as nat, sat64(metered(frames@)))),
{
    match outcome {
        UnitOutcome::Failed => None,
        UnitOutcome::Delivered { status, frames } => {
            let total = meter_frames(frames);
            Some(diagnostic_line(client, uri, *status, total))
        },
    }
}

} // verus!
