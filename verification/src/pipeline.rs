//! The state machine of one conversion run.
//!
//! The surrounding program opens the files, pulls each batch from the
//! reader and pushes it to the writer; every decision in between is taken
//! here, on plain values. The machine orders the run: the source must be
//! opened (and its reader built) before the destination may be created, so
//! a doomed run leaves no stray output file behind; after a parse or write
//! error the run can only fail, never finalize, so the writer's footer is
//! never written for a run that lost data.

use vstd::prelude::*;
use crate::messages::{progress_line, progress_text, summary_line, summary_text};

verus! {

/// Where a run stands.
#[derive(Clone, Copy, PartialEq, Eq, Structural, Debug)]
pub enum Phase {
    /// Nothing has been opened yet.
    Ready,
    /// The source file is open and its batch reader stands ready.
    SourceOpen,
    /// The destination file is created and its writer stands ready;
    /// batches are flowing.
    Converting,
    /// The writer was finalized and the summary issued.
    Finished,
    /// A fatal error ended the run; the destination, if it was created,
    /// is left unfinalized.
    Failed,
}

/// A fatal error of the run, each with the detail text of its cause.
#[derive(Clone, PartialEq, Eq, Debug)]
pub enum RunError {
    /// The source file could not be opened, or its reader not built.
    OpenSource { detail: String },
    /// The destination file could not be created, or its writer not built.
    CreateDestination { detail: String },
    /// A batch of the source could not be parsed against the schema.
    Parse { detail: String },
    /// A batch could not be appended to the destination.
    Write { detail: String },
    /// The destination could not be finalized.
    Finalize { detail: String },
}

/// The error-stream report for a fatal error.
pub open spec fn error_text(e: RunError) -> Seq<char> {
    "Application error: "@ + match e {
        RunError::OpenSource { detail } => "failed to open the source file: "@ + detail@,
        RunError::CreateDestination { detail } => "failed to create the destination file: "@
            + detail@,
        RunError::Parse { detail } => "failed to parse an input batch: "@ + detail@,
        RunError::Write { detail } => "failed to write a batch to the destination: "@ + detail@,
        RunError::Finalize { detail } => "failed to finalize the destination file: "@ + detail@,
    }
}

impl RunError {
    /// Renders the error-stream report for this error.
    pub fn report(&self) -> (r: String)
        ensures
            r@ == error_text(*self),
    {
        let mut s = String::from_str("Application error: ");
        match self {
            RunError::OpenSource { detail } => {
                s.append("failed to open the source file: ");
                s.append(detail.as_str());
            },
            RunError::CreateDestination { detail } => {
                s.append("failed to create the destination file: ");
                s.append(detail.as_str());
            },
            RunError::Parse { detail } => {
                s.append("failed to parse an input batch: ");
                s.append(detail.as_str());
            },
            RunError::Write { detail } => {
                s.append("failed to write a batch to the destination: ");
                s.append(detail.as_str());
            },
            RunError::Finalize { detail } => {
                s.append("failed to finalize the destination file: ");
                s.append(detail.as_str());
            },
        }
        s
    }
}

/// The process exit code for a finished run: zero for success, one for
/// any fatal error.
pub fn exit_code(outcome: &Result<(), RunError>) -> (r: i32)
    ensures
        outcome is Ok ==> r == 0,
        outcome is Err ==> r == 1,
{
    match outcome {
        Ok(_) => 0,
        Err(_) => 1,
    }
}

/// The fixed name of the source file.
pub fn source_path() -> (r: &'static str)
    ensures
        r@ == "sql_logs.tsv"@,
{
    "sql_logs.tsv"
}

/// The fixed name of the destination file.
pub fn destination_path() -> (r: &'static str)
    ensures
        r@ == "sql_logs.parquet"@,
{
    "sql_logs.parquet"
}

/// The row counter after one more batch of `rows` rows.
pub open spec fn next_total(total: nat, rows: nat) -> nat {
    total + rows
}

/// The row counter after a whole run over batches of the given sizes,
/// accumulated in arrival order from zero.
pub open spec fn total_after(batches: Seq<nat>) -> nat
    decreases batches.len(),
{
    if batches.len() == 0 {
        0
    } else {
        next_total(total_after(batches.drop_last()), batches.last())
    }
}

/// The number of data rows in the input: the sum of the batch sizes.
pub open spec fn sum_rows(batches: Seq<nat>) -> nat
    decreases batches.len(),
{
    if batches.len() == 0 {
        0
    } else {
        batches.first() + sum_rows(batches.drop_first())
    }
}

/// For every well-formed run, the final row counter — the number of rows
/// reported and written — equals the number of input data rows: the sum of
/// the sizes of the batches the reader produced.
pub proof fn lemma_total_counts_all_rows(batches: Seq<nat>)
    ensures
        total_after(batches) == sum_rows(batches),
    decreases batches.len(),
{
    if batches.len() > 0 {
        lemma_total_counts_all_rows(batches.drop_last());
        lemma_sum_rows_push(batches.drop_last(), batches.last());
        assert(batches.drop_last().push(batches.last()) =~= batches);
    }
}

/// Appending one batch to a run adds its size to the row sum.
proof fn lemma_sum_rows_push(batches: Seq<nat>, rows: nat)
    ensures
        sum_rows(batches.push(rows)) == sum_rows(batches) + rows,
    decreases batches.len(),
{
    let pushed = batches.push(rows);
    if batches.len() == 0 {
        assert(pushed.first() == rows);
        assert(pushed.drop_first() =~= Seq::<nat>::empty());
        assert(sum_rows(pushed) == rows + sum_rows(Seq::<nat>::empty()));
    } else {
        assert(pushed.first() == batches.first());
        assert(pushed.drop_first() =~= batches.drop_first().push(rows));
        lemma_sum_rows_push(batches.drop_first(), rows);
        assert(sum_rows(pushed) == batches.first() + sum_rows(batches.drop_first().push(rows)));
    }
}

/// One conversion run: its phase and its cumulative row counter.
#[derive(Clone, Copy, Debug)]
pub struct Pipeline {
    pub phase: Phase,
    pub total_rows: u64,
}

impl Pipeline {
    /// A fresh run: nothing opened, no rows counted.
    pub fn new() -> (r: Pipeline)
        ensures
            r.phase == Phase::Ready,
            r.total_rows == 0,
    {
        Pipeline { phase: Phase::Ready, total_rows: 0 }
    }

    /// Records that the source file is open and its batch reader built.
    /// Only now may the destination be created: a run that cannot read
    /// must not leave an output file behind.
    pub fn source_opened(&mut self)
        requires
            old(self).phase == Phase::Ready,
        ensures
            final(self).phase == Phase::SourceOpen,
            final(self).total_rows == old(self).total_rows,
    {
        self.phase = Phase::SourceOpen;
    }

    /// Records that the source could not be opened or its reader not
    /// built; the run fails before any output exists.
    pub fn source_open_failed(&mut self, detail: String) -> (e: RunError)
        requires
            old(self).phase == Phase::Ready,
        ensures
            final(self).phase == Phase::Failed,
            final(self).total_rows == old(self).total_rows,
            e == (RunError::OpenSource { detail }),
    {
        self.phase = Phase::Failed;
        RunError::OpenSource { detail }
    }

    /// Records that the destination file is created and its writer built;
    /// the batch loop may begin.
    pub fn destination_opened(&mut self)
        requires
            old(self).phase == Phase::SourceOpen,
        ensures
            final(self).phase == Phase::Converting,
            final(self).total_rows == old(self).total_rows,
    {
        self.phase = Phase::Converting;
    }

    /// Records that the destination could not be created or its writer
    /// not built.
    pub fn destination_open_failed(&mut self, detail: String) -> (e: RunError)
        requires
            old(self).phase == Phase::SourceOpen,
        ensures
            final(self).phase == Phase::Failed,
            final(self).total_rows == old(self).total_rows,
            e == (RunError::CreateDestination { detail }),
    {
        self.phase = Phase::Failed;
        RunError::CreateDestination { detail }
    }

    /// Takes one parsed batch of `rows` rows: counts it and returns the
    /// progress line to redraw, with the batch's rows already included.
    pub fn batch_received(&mut self, rows: u64) -> (progress: String)
        requires
            old(self).phase == Phase::Converting,
            old(self).total_rows + rows <= u64::MAX,
        ensures
            final(self).phase == Phase::Converting,
            final(self).total_rows == next_total(old(self).total_rows as nat, rows as nat),
            progress@ == progress_text(final(self).total_rows as nat),
    {
        self.total_rows = self.total_rows + rows;
        progress_line(self.total_rows)
    }

    /// Records a parse error from the reader: the run fails at once, no
    /// further batch is written, and — since only a `Converting` run can
    /// finish — the writer is never finalized.
    pub fn parse_failed(&mut self, detail: String) -> (e: RunError)
        requires
            old(self).phase == Phase::Converting,
        ensures
            final(self).phase == Phase::Failed,
            final(self).total_rows == old(self).total_rows,
            e == (RunError::Parse { detail }),
    {
        self.phase = Phase::Failed;
        RunError::Parse { detail }
    }

    /// Records that a batch could not be appended to the destination.
    pub fn write_failed(&mut self, detail: String) -> (e: RunError)
        requires
            old(self).phase == Phase::Converting,
        ensures
            final(self).phase == Phase::Failed,
            final(self).total_rows == old(self).total_rows,
            e == (RunError::Write { detail }),
    {
        self.phase = Phase::Failed;
        RunError::Write { detail }
    }

    /// Records that the destination could not be finalized.
    pub fn finalize_failed(&mut self, detail: String) -> (e: RunError)
        requires
            old(self).phase == Phase::Converting,
        ensures
            final(self).phase == Phase::Failed,
            final(self).total_rows == old(self).total_rows,
            e == (RunError::Finalize { detail }),
    {
        self.phase = Phase::Failed;
        RunError::Finalize { detail }
    }

    /// Ends a run whose reader is exhausted and whose writer was
    /// finalized: returns the summary line reporting the total row count.
    pub fn finished(&mut self) -> (summary: String)
        requires
            old(self).phase == Phase::Converting,
        ensures
            final(self).phase == Phase::Finished,
            final(self).total_rows == old(self).total_rows,
            summary@ == summary_text(final(self).total_rows as nat),
    {
        self.phase = Phase::Finished;
        summary_line(self.total_rows)
    }
}

} // verus!
