use vstd::prelude::*;
use crate::path::{file_name, final_segment};

verus! {

/// How a failed write is classified.
#[derive(Clone, Copy, Debug, PartialEq, Eq, Structural)]
pub enum IoFailure {
    /// The target exists and may not be replaced.
    AlreadyExists,
    /// Any other failure: no space, no permission, a missing directory.
    Other,
}

/// What the filesystem reported for the one operation that a request asked
/// for.
pub enum FsReport {
    /// A read: the file's bytes, or `None` where it is missing or unreadable.
    Read(Option<Vec<u8>>),
    /// A write of the whole request body.
    Write(Result<(), IoFailure>),
    /// A removal: whether it succeeded.
    Remove(bool),
}

/// The mathematical value of an `FsReport`.
pub enum FsReportView {
    Read(Option<Seq<u8>>),
    Write(Result<(), IoFailure>),
    Remove(bool),
}

impl View for FsReport {
    type V = FsReportView;

    open spec fn view(&self) -> FsReportView {
        match self {
            FsReport::Read(Some(data)) => FsReportView::Read(Some(data@)),
            FsReport::Read(None) => FsReportView::Read(None),
            FsReport::Write(r) => FsReportView::Write(*r),
            FsReport::Remove(ok) => FsReportView::Remove(*ok),
        }
    }
}

/// The ways a request can fail, each with one status code.
#[derive(Clone, Copy, Debug, PartialEq, Eq, Structural)]
pub enum Failure {
    /// A read or removal of a missing file.
    NotFound,
    /// A write that the filesystem refused because the target exists.
    Conflict,
    /// Any other failed write.
    Internal,
    /// A method that the path does not accept.
    NotAllowed,
}

/// The status code of each failure.
pub open spec fn failure_status(f: Failure) -> u16 {
    match f {
        Failure::NotFound => 404,
        Failure::Conflict => 409,
        Failure::Internal => 500,
        Failure::NotAllowed => 405,
    }
}

impl Failure {
    /// The status code that answers this failure.
    pub fn status(&self) -> (r: u16)
        ensures
            r == failure_status(*self),
    {
        match self {
            Failure::NotFound => 404,
            Failure::Conflict => 409,
            Failure::Internal => 500,
            Failure::NotAllowed => 405,
        }
    }
}

/// What came of applying a request's method to its path.
pub enum Outcome {
    /// A file was read: its bytes and the name to offer it under.
    Download { data: Vec<u8>, name: Vec<u8> },
    /// A write or removal succeeded.
    Done,
    /// The request failed.
    Failed(Failure),
}

/// The mathematical value of an `Outcome`.
pub enum OutcomeView {
    Download { data: Seq<u8>, name: Seq<u8> },
    Done,
    Failed(Failure),
}

impl View for Outcome {
    type V = OutcomeView;

    open spec fn view(&self) -> OutcomeView {
        match self {
            Outcome::Download { data, name } => OutcomeView::Download { data: data@, name: name@ },
            Outcome::Done => OutcomeView::Done,
            Outcome::Failed(f) => OutcomeView::Failed(*f),
        }
    }
}

/// The outcome of a filesystem report for the file at `path`: a read file is
/// offered under its last path segment; a failed read or removal is
/// `NotFound`; a write refused because the target exists is `Conflict`, any
/// other failed write `Internal`.
pub open spec fn classified(path: Seq<u8>, report: FsReportView) -> OutcomeView {
    match report {
        FsReportView::Read(Some(data)) => OutcomeView::Download { data, name: final_segment(path) },
        FsReportView::Read(None) => OutcomeView::Failed(Failure::NotFound),
        FsReportView::Write(Ok(())) => OutcomeView::Done,
        FsReportView::Write(Err(IoFailure::AlreadyExists)) => OutcomeView::Failed(Failure::Conflict),
        FsReportView::Write(Err(IoFailure::Other)) => OutcomeView::Failed(Failure::Internal),
        FsReportView::Remove(true) => OutcomeView::Done,
        FsReportView::Remove(false) => OutcomeView::Failed(Failure::NotFound),
    }
}

/// The status code of an outcome: 200 for every success.
pub open spec fn outcome_status(o: OutcomeView) -> u16 {
    match o {
        OutcomeView::Failed(f) => failure_status(f),
        _ => 200,
    }
}

/// Classifies what the filesystem reported for the file at `path`.
pub fn classify(path: &[u8], report: FsReport) -> (o: Outcome)
    ensures
        o@ == classified(path@, report@),
{
    match report {
        FsReport::Read(Some(data)) => Outcome::Download { data, name: file_name(path) },
        FsReport::Read(None) => Outcome::Failed(Failure::NotFound),
        FsReport::Write(Ok(())) => Outcome::Done,
        FsReport::Write(Err(IoFailure::AlreadyExists)) => Outcome::Failed(Failure::Conflict),
        FsReport::Write(Err(IoFailure::Other)) => Outcome::Failed(Failure::Internal),
        FsReport::Remove(true) => Outcome::Done,
        FsReport::Remove(false) => Outcome::Failed(Failure::NotFound),
    }
}

impl Outcome {
    /// The status code that answers this outcome.
    pub fn status(&self) -> (r: u16)
        ensures
            r == outcome_status(self@),
    {
        match self {
            Outcome::Failed(f) => f.status(),
            _ => 200,
        }
    }
}

} // verus!
