//! Outcomes of checking the credentials of process binaries.

pub mod basic;

use crate::errorcode::ErrorCode;
use crate::process::{ProcessInfo, ShortId};
use crate::process_binary::ProcessBinary;
use vstd::prelude::*;

verus! {

/// Why a process binary was not accepted.
#[derive(Clone, Copy, PartialEq, Eq, Structural, Debug)]
pub enum ProcessCheckError {
    /// Credentials are required and none was accepted.
    CredentialsNotAccepted,
    /// The credential of this index, counted from the first one after the
    /// binary, was rejected.
    CredentialsRejected(u32),
    /// Error in the kernel.
    InternalError,
}

/// What checking one credential decided.
#[derive(Clone, Copy, PartialEq, Eq, Structural, Debug)]
pub enum CheckResult {
    /// Accept the credential and run the binary, with optional metadata.
    Accept(Option<CheckResultAcceptMetadata>),
    /// Go on with the next credential, or the default policy after the last.
    Pass,
    /// Reject the credential and do not run the binary.
    Reject,
}

/// Metadata that a checker attaches to an accepted credential, with a
/// meaning of its own.
#[derive(Clone, Copy, PartialEq, Eq, Structural, Debug)]
pub struct CheckResultAcceptMetadata {
    pub metadata: usize,
}

/// What the footer parser reported of the next footer.
#[derive(Clone, Copy, PartialEq, Eq, Structural, Debug)]
pub enum FooterParse {
    /// Not enough flash is left for a footer.
    NotEnoughFlash,
    /// The footer has a bad entry.
    BadTlvEntry,
    /// The footer did not parse for another reason.
    OtherError,
    /// A footer whose entry is `len` bytes long, after a 4 byte header.
    Footer { len: u32 },
}

/// What checking the footer of a given index led to.
#[derive(Clone, Copy, PartialEq, Eq, Structural, Debug)]
pub enum FooterCheckResult {
    /// The check of a credential started.
    Checking,
    /// There are no more footers; no check started.
    PastLastFooter,
    /// The footer is not a credential the policy checks; no check started.
    FooterNotCheckable,
    /// The footer is invalid; no check started.
    BadFooter,
    /// An internal error occurred; no check started.
    Error,
}

/// How the checking of a binary ends.
#[derive(Clone, Copy, PartialEq, Eq, Structural, Debug)]
pub enum CheckOutcome {
    /// A credential was accepted, with the metadata the policy attached.
    Accepted(Option<CheckResultAcceptMetadata>),
    /// No credential was accepted and none is required.
    NoneRequired,
    /// The binary may not run.
    Failed(ProcessCheckError),
}

/// What the checker does next.
#[derive(Clone, Copy, PartialEq, Eq, Structural, Debug)]
pub enum CheckerStep {
    /// Wait for the policy to finish checking a credential.
    Wait,
    /// Check the footer after the current one.
    NextFooter,
    /// Checking is over.
    Done(CheckOutcome),
}

/// What stepping over a footer gives: what is left of the footer region
/// after the footer and its 4 byte header, or why the walk ends there.
pub open spec fn skip_footer_outcome(parse: FooterParse, remaining: usize) -> Result<usize, FooterCheckResult> {
    match parse {
        FooterParse::NotEnoughFlash => Err(FooterCheckResult::PastLastFooter),
        FooterParse::BadTlvEntry => Err(FooterCheckResult::BadFooter),
        FooterParse::OtherError => Err(FooterCheckResult::BadFooter),
        FooterParse::Footer { len } => if len + 4 > remaining {
            Err(FooterCheckResult::BadFooter)
        } else {
            Ok((remaining - len - 4) as usize)
        },
    }
}

/// Steps over a footer that is not the one to check: what is left of the
/// footer region after it, or why the walk ends there.
pub fn skip_footer(parse: FooterParse, remaining: usize) -> (r: Result<usize, FooterCheckResult>)
    ensures
        r == skip_footer_outcome(parse, remaining),
{
    match parse {
        FooterParse::NotEnoughFlash => Err(FooterCheckResult::PastLastFooter),
        FooterParse::BadTlvEntry => Err(FooterCheckResult::BadFooter),
        FooterParse::OtherError => Err(FooterCheckResult::BadFooter),
        FooterParse::Footer { len } => {
            let len: usize = len as usize;
            if remaining < 4 || len > remaining - 4 {
                Err(FooterCheckResult::BadFooter)
            } else {
                Ok(remaining - len - 4)
            }
        },
    }
}

/// Classifies the footer to check, given what the parser reported of it,
/// what is left of the footer region, and what the policy answered when
/// asked to check it (only asked when the footer fits).
pub fn classify_footer(parse: FooterParse, remaining: usize, check: Result<(), ErrorCode>) -> (r:
    FooterCheckResult)
    ensures
        r == match skip_footer_outcome(parse, remaining) {
            Err(e) => e,
            Ok(_) => match check {
                Ok(()) => FooterCheckResult::Checking,
                Err(ErrorCode::NOSUPPORT) => FooterCheckResult::FooterNotCheckable,
                Err(ErrorCode::ALREADY) => FooterCheckResult::FooterNotCheckable,
                Err(_) => FooterCheckResult::Error,
            },
        },
{
    match skip_footer(parse, remaining) {
        Err(e) => e,
        Ok(_) => match check {
            Ok(()) => FooterCheckResult::Checking,
            Err(ErrorCode::NOSUPPORT) => FooterCheckResult::FooterNotCheckable,
            Err(ErrorCode::ALREADY) => FooterCheckResult::FooterNotCheckable,
            Err(_) => FooterCheckResult::Error,
        },
    }
}

/// What the checker does after classifying a footer: wait for a check that
/// started, go on past a footer it cannot check, or end: without credentials
/// when the footers ran out or went bad, which fails if the policy requires
/// credentials, and with an internal error otherwise.
pub fn next_step(result: FooterCheckResult, require_credentials: bool) -> (r: CheckerStep)
    ensures
        r == match result {
            FooterCheckResult::Checking => CheckerStep::Wait,
            FooterCheckResult::FooterNotCheckable => CheckerStep::NextFooter,
            FooterCheckResult::PastLastFooter | FooterCheckResult::BadFooter => if require_credentials {
                CheckerStep::Done(CheckOutcome::Failed(ProcessCheckError::CredentialsNotAccepted))
            } else {
                CheckerStep::Done(CheckOutcome::NoneRequired)
            },
            FooterCheckResult::Error => CheckerStep::Done(
                CheckOutcome::Failed(ProcessCheckError::InternalError),
            ),
        },
{
    match result {
        FooterCheckResult::Checking => CheckerStep::Wait,
        FooterCheckResult::FooterNotCheckable => CheckerStep::NextFooter,
        FooterCheckResult::PastLastFooter | FooterCheckResult::BadFooter => {
            if require_credentials {
                CheckerStep::Done(CheckOutcome::Failed(ProcessCheckError::CredentialsNotAccepted))
            } else {
                CheckerStep::Done(CheckOutcome::NoneRequired)
            }
        },
        FooterCheckResult::Error => CheckerStep::Done(
            CheckOutcome::Failed(ProcessCheckError::InternalError),
        ),
    }
}

/// What the checker does when the policy finished checking the credential
/// of footer `footer_index`: accept the binary, reject it naming the
/// footer, or go on with the next footer when the policy passed or failed.
pub fn check_done_step(result: Result<CheckResult, ErrorCode>, footer_index: usize) -> (r: CheckerStep)
    ensures
        r == match result {
            Ok(CheckResult::Accept(metadata)) => CheckerStep::Done(CheckOutcome::Accepted(metadata)),
            Ok(CheckResult::Reject) => CheckerStep::Done(
                CheckOutcome::Failed(ProcessCheckError::CredentialsRejected(footer_index as u32)),
            ),
            Ok(CheckResult::Pass) | Err(_) => CheckerStep::NextFooter,
        },
{
    match result {
        Ok(CheckResult::Accept(metadata)) => CheckerStep::Done(CheckOutcome::Accepted(metadata)),
        Ok(CheckResult::Pass) => CheckerStep::NextFooter,
        Ok(CheckResult::Reject) => CheckerStep::Done(
            CheckOutcome::Failed(ProcessCheckError::CredentialsRejected(footer_index as u32)),
        ),
        Err(_) => CheckerStep::NextFooter,
    }
}

/// Whether two processes have the same application identifier; two
/// processes with the same identifier cannot run at the same time.
pub trait AppUniqueness {
    /// Whether two binaries have different identifiers.
    fn different_identifier(&self, process_a: &ProcessBinary, process_b: &ProcessBinary) -> bool;

    /// Whether a binary and a loaded process have different identifiers.
    fn different_identifier_process(
        &self,
        process_a: &ProcessBinary,
        process_b: &ProcessInfo,
    ) -> bool;

    /// Whether two loaded processes have different identifiers.
    fn different_identifier_processes(
        &self,
        process_a: &ProcessInfo,
        process_b: &ProcessInfo,
    ) -> bool;
}

/// Without a policy every two processes have different identifiers.
impl AppUniqueness for () {
    fn different_identifier(&self, _process_a: &ProcessBinary, _process_b: &ProcessBinary) -> (r:
        bool)
        ensures
            r,
    {
        true
    }

    fn different_identifier_process(
        &self,
        _process_a: &ProcessBinary,
        _process_b: &ProcessInfo,
    ) -> (r: bool)
        ensures
            r,
    {
        true
    }

    fn different_identifier_processes(
        &self,
        _process_a: &ProcessInfo,
        _process_b: &ProcessInfo,
    ) -> (r: bool)
        ensures
            r,
    {
        true
    }
}

/// Turns the application identifier of a binary into a short identifier.
pub trait Compress {
    /// The short identifier of the binary.
    fn to_short_id(&self, process: &ProcessBinary) -> ShortId;
}

/// Without a policy every binary gets a locally unique short identifier.
impl Compress for () {
    fn to_short_id(&self, _process: &ProcessBinary) -> (r: ShortId)
        ensures
            r == ShortId::LocallyUnique,
    {
        ShortId::LocallyUnique
    }
}

/// A policy on application identifiers: uniqueness and short identifiers.
pub trait AppIdPolicy: AppUniqueness + Compress {}

impl<T: AppUniqueness + Compress> AppIdPolicy for T {}

} // verus!
