//! The subscriber's side: counting the reports it waits for.

use crate::report::{BlockProvingReport, ReportView};
use crate::wire::{decode_report, parse_report, WireError};
use vstd::prelude::*;

verus! {

/// A frame received from the service.
#[derive(Debug)]
pub enum ServiceFrame {
    /// A binary frame with this payload.
    Binary(Vec<u8>),
    /// A close frame.
    Close,
    /// Any other frame.
    Other,
}

/// What a frame means to a subscriber that waits for reports.
#[derive(Debug)]
pub enum WaitOutcome {
    /// The frame held this report; with `done` it was the last one awaited.
    Report { report: BlockProvingReport, done: bool },
    /// The binary frame held no report.
    Malformed(WireError),
    /// The service closed the connection: nothing more will come.
    ClosedByService,
    /// The frame is of no concern.
    Ignored,
}

/// Mathematical value of a [`ServiceFrame`].
pub enum ServiceFrameView {
    Binary(Seq<u8>),
    Close,
    Other,
}

/// Mathematical value of a [`WaitOutcome`].
pub enum WaitOutcomeView {
    Report { report: ReportView, done: bool },
    Malformed(WireError),
    ClosedByService,
    Ignored,
}

impl View for ServiceFrame {
    type V = ServiceFrameView;

    open spec fn view(&self) -> ServiceFrameView {
        match self {
            ServiceFrame::Binary(bytes) => ServiceFrameView::Binary(bytes@),
            ServiceFrame::Close => ServiceFrameView::Close,
            ServiceFrame::Other => ServiceFrameView::Other,
        }
    }
}

impl View for WaitOutcome {
    type V = WaitOutcomeView;

    open spec fn view(&self) -> WaitOutcomeView {
        match self {
            WaitOutcome::Report { report, done } => WaitOutcomeView::Report {
                report: report@,
                done: *done,
            },
            WaitOutcome::Malformed(e) => WaitOutcomeView::Malformed(*e),
            WaitOutcome::ClosedByService => WaitOutcomeView::ClosedByService,
            WaitOutcome::Ignored => WaitOutcomeView::Ignored,
        }
    }
}

/// The number of reports still awaited after a frame, and what the frame
/// means. The wait ends with the report that leaves none awaited; a wait for
/// no report ends with the first one all the same.
pub open spec fn wait_step_of(awaited: usize, frame: ServiceFrameView) -> (usize, WaitOutcomeView) {
    match frame {
        ServiceFrameView::Binary(bytes) => match parse_report(bytes) {
            Ok(report) => if awaited <= 1 {
                (awaited, WaitOutcomeView::Report { report, done: true })
            } else {
                ((awaited - 1) as usize, WaitOutcomeView::Report { report, done: false })
            },
            Err(e) => (awaited, WaitOutcomeView::Malformed(e)),
        },
        ServiceFrameView::Close => (awaited, WaitOutcomeView::ClosedByService),
        ServiceFrameView::Other => (awaited, WaitOutcomeView::Ignored),
    }
}

/// A subscriber's wait for a number of reports.
#[derive(Clone, Copy, Debug, PartialEq, Eq, Structural)]
pub struct WaitProgress {
    /// Reports still awaited.
    pub awaited: usize,
}

impl WaitProgress {
    /// The wait for `block_count` reports.
    pub fn new(block_count: usize) -> (progress: Self)
        ensures
            progress.awaited == block_count,
    {
        WaitProgress { awaited: block_count }
    }

    /// Takes one frame from the service.
    pub fn on_frame(&mut self, frame: ServiceFrame) -> (outcome: WaitOutcome)
        ensures
            (final(self).awaited, outcome@) == wait_step_of(old(self).awaited, frame@),
    {
        match frame {
            ServiceFrame::Binary(bytes) => match decode_report(bytes.as_slice()) {
                Ok(report) => {
                    if self.awaited <= 1 {
                        WaitOutcome::Report { report, done: true }
                    } else {
                        self.awaited = self.awaited - 1;
                        WaitOutcome::Report { report, done: false }
                    }
                },
                Err(e) => WaitOutcome::Malformed(e),
            },
            ServiceFrame::Close => WaitOutcome::ClosedByService,
            ServiceFrame::Other => WaitOutcome::Ignored,
        }
    }
}

} // verus!
