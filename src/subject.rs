//! Decisions taken by the subject and governance helpers between their calls
//! to the engine: how a refresh proceeds, when a cached subject is replaced,
//! which subjects are governances, and the defaults of a subject under
//! construction. The calls themselves are made by the caller of these
//! functions, which hands back what the engine answered.
use vstd::prelude::*;
use vstd::string::*;
use crate::error::TapleError;
use crate::models::TapleRequestState;

verus! {

/// Whether `e` is `NotFound` with the text `m`.
pub open spec fn not_found_with(e: TapleError, m: Seq<char>) -> bool {
    e matches TapleError::NotFound(d) && d@ == m
}

/// An engine failure as the engine reports it.
#[derive(Debug, Clone, PartialEq, Eq)]
pub enum EngineFailure {
    /// The entity asked for does not exist.
    NotFound(String),
    /// Any other failure, with its diagnostic text.
    Other(String),
}

/// Maps an engine failure to the caller-facing error: `NotFound` is kept as
/// it is, anything else becomes an `ExecutionError` with the same text.
pub fn error_conversion(e: EngineFailure) -> (r: TapleError)
    ensures
        match e {
            EngineFailure::NotFound(m) => r == TapleError::NotFound(m),
            EngineFailure::Other(d) => r == TapleError::ExecutionError(d),
        },
{
    match e {
        EngineFailure::NotFound(m) => TapleError::NotFound(m),
        EngineFailure::Other(d) => TapleError::ExecutionError(d),
    }
}

/// How a refresh of a subject helper begins.
#[derive(Debug, Clone, Copy, PartialEq, Eq, Structural)]
pub enum RefreshStart {
    /// The subject is known: fetch it again and compare sequence numbers.
    CheckSubject,
    /// Only the creation request is known: ask how far it has gone.
    CheckRequest,
}

/// Chooses how to refresh a helper that holds subject data (`has_data`)
/// and/or the id of the request that creates the subject (`has_request`).
pub fn refresh_start(has_data: bool, has_request: bool) -> (r: Result<RefreshStart, TapleError>)
    ensures
        has_data ==> r == Ok::<RefreshStart, TapleError>(RefreshStart::CheckSubject),
        !has_data && has_request ==> r == Ok::<RefreshStart, TapleError>(
            RefreshStart::CheckRequest,
        ),
        !has_data && !has_request ==> (r matches Err(e) && not_found_with(
            e,
            "Event request not found"@,
        )),
{
    if has_data {
        Ok(RefreshStart::CheckSubject)
    } else if has_request {
        Ok(RefreshStart::CheckRequest)
    } else {
        Err(TapleError::NotFound(String::from_str("Event request not found")))
    }
}

/// Replaces the cached subject with the engine's copy when the engine's is
/// newer (a higher sequence number); keeps it otherwise. Returns whether it
/// replaced it.
pub fn refresh_subject<T>(cached: &mut T, cached_sn: u64, fetched: T, fetched_sn: u64) -> (r: bool)
    ensures
        r == (cached_sn < fetched_sn),
        r ==> *final(cached) == fetched,
        !r ==> *final(cached) == *old(cached),
{
    if cached_sn < fetched_sn {
        *cached = fetched;
        true
    } else {
        false
    }
}

/// Where a subject's creation request stands.
#[derive(Debug, Clone, PartialEq, Eq)]
pub enum RequestProgress {
    /// Not finished yet: nothing to do for now.
    Pending,
    /// Finished, and it created the subject with this id: fetch it.
    SubjectReady(String),
}

/// Reads the state of a creation request.
pub fn request_progress(state: TapleRequestState, subject_id: Option<String>) -> (r: Result<
    RequestProgress,
    TapleError,
>)
    ensures
        state != TapleRequestState::Finished ==> r == Ok::<RequestProgress, TapleError>(
            RequestProgress::Pending,
        ),
        state == TapleRequestState::Finished ==> match subject_id {
            Some(id) => r == Ok::<RequestProgress, TapleError>(RequestProgress::SubjectReady(id)),
            None => r matches Err(e) && not_found_with(e, "Subject ID not found"@),
        },
{
    match state {
        TapleRequestState::Finished => match subject_id {
            Some(id) => Ok(RequestProgress::SubjectReady(id)),
            None => Err(TapleError::NotFound(String::from_str("Subject ID not found"))),
        },
        _ => Ok(RequestProgress::Pending),
    }
}

/// Whether a subject with the given schema can be viewed as a governance:
/// only subject data whose schema is `governance` can.
pub fn governance_check(schema_id: Option<&String>) -> (r: Result<(), TapleError>)
    ensures
        match schema_id {
            None => r matches Err(e) && not_found_with(e, "Subject data not found"@),
            Some(s) => if s@ == "governance"@ {
                r == Ok::<(), TapleError>(())
            } else {
                r matches Err(e) && not_found_with(e, "Schema ID not valid"@)
            },
        },
{
    match schema_id {
        None => Err(TapleError::NotFound(String::from_str("Subject data not found"))),
        Some(s) => {
            if *s == String::from_str("governance") {
                Ok(())
            } else {
                Err(TapleError::NotFound(String::from_str("Schema ID not valid")))
            }
        },
    }
}

/// Name and namespace of a subject under construction.
#[derive(Debug, Clone, PartialEq, Eq)]
pub struct SubjectDraft {
    pub name: Option<String>,
    pub namespace: Option<String>,
}

/// The text of an optional field; empty when it was never set.
pub open spec fn or_empty(v: Option<String>) -> Seq<char> {
    match v {
        Some(s) => s@,
        None => Seq::empty(),
    }
}

impl SubjectDraft {
    pub fn new() -> (r: Self)
        ensures
            r.name is None,
            r.namespace is None,
    {
        SubjectDraft { name: None, namespace: None }
    }

    pub fn with_name(&mut self, name: String)
        ensures
            final(self).name == Some(name),
            final(self).namespace == old(self).namespace,
    {
        self.name = Some(name);
    }

    pub fn with_namespace(&mut self, namespace: String)
        ensures
            final(self).namespace == Some(namespace),
            final(self).name == old(self).name,
    {
        self.namespace = Some(namespace);
    }

    /// The name to create the subject with: empty when none was given.
    pub fn get_name(&self) -> (r: String)
        ensures
            r@ == or_empty(self.name),
    {
        match &self.name {
            Some(n) => n.clone(),
            None => String::new(),
        }
    }

    /// The namespace to create the subject in: empty when none was given.
    pub fn get_namespace(&self) -> (r: String)
        ensures
            r@ == or_empty(self.namespace),
    {
        match &self.namespace {
            Some(n) => n.clone(),
            None => String::new(),
        }
    }
}

} // verus!
