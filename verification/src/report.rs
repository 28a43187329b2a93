//! The per-block proving report.

use crate::text::{decimal, push_decimal, push_truth, truth};
use vstd::prelude::*;
use vstd::string::*;

verus! {

/// The first line of a file of reports: the names of the columns.
pub const CSV_HEADER: &'static str =
    "block_number,success,cycles,proving_milliseconds,data_fetch_milliseconds";

/// Outcome of proving one block, as published to subscribers.
#[derive(Debug, PartialEq, Eq)]
pub struct BlockProvingReport {
    /// Whether proving succeeded.
    pub success: bool,
    /// Number of the block.
    pub block_number: u64,
    /// Emulation cycles spent.
    pub cycles: u64,
    /// Milliseconds spent proving.
    pub proving_milliseconds: u64,
    /// Milliseconds spent fetching and preparing the block's input data.
    pub data_fetch_milliseconds: u64,
    /// Serialized proof, present once proving has succeeded.
    pub proof: Option<Vec<u8>>,
}

/// Mathematical value of a [`BlockProvingReport`].
pub struct ReportView {
    pub success: bool,
    pub block_number: u64,
    pub cycles: u64,
    pub proving_milliseconds: u64,
    pub data_fetch_milliseconds: u64,
    pub proof: Option<Seq<u8>>,
}

impl ReportView {
    /// The report of a block whose data was fetched and that is not proved yet.
    pub open spec fn fetched(block_number: u64, data_fetch_milliseconds: u64) -> ReportView {
        ReportView {
            success: false,
            block_number,
            cycles: 0,
            proving_milliseconds: 0,
            data_fetch_milliseconds,
            proof: None,
        }
    }

    /// This report after a successful proof was merged into it.
    pub open spec fn proved(self, cycles: u64, proving_milliseconds: u64, proof: Seq<u8>) -> ReportView {
        ReportView { success: true, cycles, proving_milliseconds, proof: Some(proof), ..self }
    }

    /// This report after a failed proving attempt was merged into it.
    pub open spec fn failed(self) -> ReportView {
        ReportView { success: false, ..self }
    }
}

/// A report in one line of words.
pub open spec fn summary_of(r: ReportView) -> Seq<char> {
    "Block #"@ + decimal(r.block_number as nat) + " | success: "@ + truth(r.success)
        + " | cycles: "@ + decimal(r.cycles as nat) + " | proving: "@ + decimal(
        r.proving_milliseconds as nat,
    ) + " ms | data_fetch: "@ + decimal(r.data_fetch_milliseconds as nat) + " ms"@
}

/// A report as a row of a file of reports: the block number, the success,
/// the cycles, the proving time and the fetch time, with commas between.
pub open spec fn csv_row_of(r: ReportView) -> Seq<char> {
    decimal(r.block_number as nat) + ","@ + truth(r.success) + ","@ + decimal(r.cycles as nat)
        + ","@ + decimal(r.proving_milliseconds as nat) + ","@ + decimal(
        r.data_fetch_milliseconds as nat,
    )
}

/// What a report adds to a file of reports: its row as a line, behind the
/// line of column names where the file is new.
pub open spec fn csv_entry_of(r: ReportView, file_exists: bool) -> Seq<char> {
    if file_exists {
        csv_row_of(r) + "\n"@
    } else {
        CSV_HEADER@ + "\n"@ + csv_row_of(r) + "\n"@
    }
}

impl View for BlockProvingReport {
    type V = ReportView;

    open spec fn view(&self) -> ReportView {
        ReportView {
            success: self.success,
            block_number: self.block_number,
            cycles: self.cycles,
            proving_milliseconds: self.proving_milliseconds,
            data_fetch_milliseconds: self.data_fetch_milliseconds,
            proof: match self.proof {
                Some(p) => Some(p@),
                None => None,
            },
        }
    }
}

impl Clone for BlockProvingReport {
    fn clone(&self) -> (copy: Self)
        ensures
            copy@ == self@,
    {
        BlockProvingReport {
            success: self.success,
            block_number: self.block_number,
            cycles: self.cycles,
            proving_milliseconds: self.proving_milliseconds,
            data_fetch_milliseconds: self.data_fetch_milliseconds,
            proof: match &self.proof {
                Some(p) => Some(p.clone()),
                None => None,
            },
        }
    }
}

impl Default for BlockProvingReport {
    fn default() -> (report: Self)
        ensures
            report@ == ReportView::fetched(0, 0),
    {
        BlockProvingReport::new(0, 0)
    }
}

impl BlockProvingReport {
    /// Starts a report after the block's data was fetched: nothing proved yet.
    pub fn new(block_number: u64, data_fetch_milliseconds: u64) -> (report: Self)
        ensures
            report@ == ReportView::fetched(block_number, data_fetch_milliseconds),
    {
        BlockProvingReport {
            success: false,
            block_number,
            cycles: 0,
            proving_milliseconds: 0,
            data_fetch_milliseconds,
            proof: None,
        }
    }

    /// Records a successful proof.
    pub fn on_proving_success(&mut self, cycles: u64, proving_milliseconds: u64, proof: Vec<u8>)
        ensures
            final(self)@ == old(self)@.proved(cycles, proving_milliseconds, proof@),
    {
        self.success = true;
        self.cycles = cycles;
        self.proving_milliseconds = proving_milliseconds;
        self.proof = Some(proof);
    }

    /// Records a failed proving attempt; every other field keeps its value.
    pub fn on_proving_failure(&mut self)
        ensures
            final(self)@ == old(self)@.failed(),
    {
        self.success = false;
    }

    /// Describes the report in one line of words.
    pub fn summary(&self) -> (text: String)
        ensures
            text@ == summary_of(self@),
    {
        let mut text = String::from_str("Block #");
        push_decimal(&mut text, self.block_number);
        text.append(" | success: ");
        push_truth(&mut text, self.success);
        text.append(" | cycles: ");
        push_decimal(&mut text, self.cycles);
        text.append(" | proving: ");
        push_decimal(&mut text, self.proving_milliseconds);
        text.append(" ms | data_fetch: ");
        push_decimal(&mut text, self.data_fetch_milliseconds);
        text.append(" ms");
        text
    }

    fn push_csv_row(&self, text: &mut String)
        ensures
            final(text)@ == old(text)@ + csv_row_of(self@),
    {
        push_decimal(text, self.block_number);
        text.append(",");
        push_truth(text, self.success);
        text.append(",");
        push_decimal(text, self.cycles);
        text.append(",");
        push_decimal(text, self.proving_milliseconds);
        text.append(",");
        push_decimal(text, self.data_fetch_milliseconds);
        assert(text@ =~= old(text)@ + csv_row_of(self@));
    }

    /// Writes the report as a row of a file of reports.
    pub fn csv_row(&self) -> (text: String)
        ensures
            text@ == csv_row_of(self@),
    {
        let mut text = String::new();
        self.push_csv_row(&mut text);
        assert(text@ =~= csv_row_of(self@));
        text
    }

    /// Writes what the report adds to a file of reports; `file_exists`
    /// tells whether the file is there already.
    pub fn csv_entry(&self, file_exists: bool) -> (text: String)
        ensures
            text@ == csv_entry_of(self@, file_exists),
    {
        let mut text = String::new();
        if !file_exists {
            text.append(CSV_HEADER);
            text.append("\n");
        }
        self.push_csv_row(&mut text);
        text.append("\n");
        assert(text@ =~= csv_entry_of(self@, file_exists));
        text
    }
}

} // verus!
