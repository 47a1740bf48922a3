//! Calls of the identity server's client: what each failure is reported as,
//! how the client is told to trust the server's certificate, and whether a
//! result is a conflict.
use vstd::prelude::*;

use crate::conf::{disk_reported, path_exists};
use crate::error::{signals_conflict, wraps, AppError, AppResult, KanidmError};

verus! {

/// Whether a result is a failure that is, at its root, an HTTP 409
/// (Conflict) answer of the identity server.
pub trait ConflictCheck {
    fn is_conflict(&self) -> bool;
}

impl<T> ConflictCheck for AppResult<T> {
    fn is_conflict(&self) -> (r: bool)
        ensures
            r == (*self matches Err(e) && signals_conflict(e)),
    {
        match self {
            Err(e) => e.is_conflict(),
            _ => false,
        }
    }
}

/// A call that the bootstrap makes to the identity server.
#[derive(Debug, Clone, Copy, PartialEq, Eq, Structural)]
pub enum KanidmCall {
    CreatePerson,
    IssueResetToken,
    AddToGroup,
    GetPerson,
    DeletePerson,
    GetGroup,
    CreateApp,
    AddRedirectUrl,
    UpdateScopeMap,
    DeleteApp,
    LoadCaCertificate,
    BuildClient,
    Authenticate,
}

/// The sentence in front of a failure of each call.
pub open spec fn failure_context(call: KanidmCall) -> Seq<char> {
    match call {
        KanidmCall::CreatePerson => "Failed to create person"@,
        KanidmCall::IssueResetToken => "Failed to generate reset token intent"@,
        KanidmCall::AddToGroup => "Failed to add person to group"@,
        KanidmCall::GetPerson => "Failed to get person entry"@,
        KanidmCall::DeletePerson => "Failed to delete person"@,
        KanidmCall::GetGroup => "Failed to get group entry"@,
        KanidmCall::CreateApp => "Failed to create oauth2 app"@,
        KanidmCall::AddRedirectUrl => "Failed to add redirect URL"@,
        KanidmCall::UpdateScopeMap => "Failed to update scope map"@,
        KanidmCall::DeleteApp => "Failed to delete oauth2 app"@,
        KanidmCall::LoadCaCertificate => "Failed to load CA certificate"@,
        KanidmCall::BuildClient => "Failed to build Kanidm client"@,
        KanidmCall::Authenticate => "Authentication failed with recovery code"@,
    }
}

impl KanidmCall {
    /// The sentence in front of a failure of this call.
    pub fn context(&self) -> (r: &'static str)
        ensures
            r@ == failure_context(*self),
    {
        match self {
            KanidmCall::CreatePerson => "Failed to create person",
            KanidmCall::IssueResetToken => "Failed to generate reset token intent",
            KanidmCall::AddToGroup => "Failed to add person to group",
            KanidmCall::GetPerson => "Failed to get person entry",
            KanidmCall::DeletePerson => "Failed to delete person",
            KanidmCall::GetGroup => "Failed to get group entry",
            KanidmCall::CreateApp => "Failed to create oauth2 app",
            KanidmCall::AddRedirectUrl => "Failed to add redirect URL",
            KanidmCall::UpdateScopeMap => "Failed to update scope map",
            KanidmCall::DeleteApp => "Failed to delete oauth2 app",
            KanidmCall::LoadCaCertificate => "Failed to load CA certificate",
            KanidmCall::BuildClient => "Failed to build Kanidm client",
            KanidmCall::Authenticate => "Authentication failed with recovery code",
        }
    }

    /// The error that reports a failure of this call.
    pub fn fail(self, err: KanidmError) -> (r: AppError)
        ensures
            wraps(r, failure_context(self), AppError::Kanidm(err)),
    {
        let message = self.context();
        AppError::from(err).context(message)
    }

    /// The result of this call: its value, or its failure reported with the
    /// call's sentence in front.
    pub fn outcome<T>(self, raw: Result<T, KanidmError>) -> (r: AppResult<T>)
        ensures
            raw matches Ok(v) ==> r == Ok::<T, AppError>(v),
            raw matches Err(k) ==> (r matches Err(e) && wraps(
                e,
                failure_context(self),
                AppError::Kanidm(k),
            )),
    {
        match raw {
            Ok(v) => Ok(v),
            Err(k) => Err(self.fail(k)),
        }
    }
}

/// How the client is to trust the server's certificate.
#[derive(Debug, Clone, Copy, PartialEq, Eq, Structural)]
pub enum CaTrust {
    /// Add the certificate authority found at the given path as a root.
    RootCertificate,
    /// Accept any certificate (allowed in debug builds only).
    AcceptInvalidCertificates,
}

/// The error of a release build that finds no certificate authority.
pub open spec fn missing_ca_message(ca_path: Seq<char>) -> Seq<char> {
    "Production error: CA certificate not found at "@ + ca_path
}

/// How to trust the server, once it is known whether the certificate
/// authority file exists and whether this is a debug build.
pub fn ca_trust_for(ca_path: &str, ca_exists: bool, debug_build: bool) -> (r: AppResult<CaTrust>)
    ensures
        ca_exists ==> r == Ok::<CaTrust, AppError>(CaTrust::RootCertificate),
        !ca_exists && debug_build ==> r == Ok::<CaTrust, AppError>(
            CaTrust::AcceptInvalidCertificates,
        ),
        !ca_exists && !debug_build ==> (r matches Err(AppError::Other(m)) && m@
            == missing_ca_message(ca_path@)),
{
    if ca_exists {
        Ok(CaTrust::RootCertificate)
    } else if debug_build {
        Ok(CaTrust::AcceptInvalidCertificates)
    } else {
        Err(
            AppError::Other(
                String::from_str("Production error: CA certificate not found at ").concat(ca_path),
            ),
        )
    }
}

/// How to trust the server, looking on disk for the certificate authority
/// file at `ca_path`. Whether the file exists is up to the disk, so the
/// result is the answer of [`ca_trust_for`] for one of the two possibilities:
/// trust the file as a root; or, without it, accept any certificate in a
/// debug build and fail in a release build.
pub fn ca_trust(ca_path: &str, debug_build: bool) -> (r: AppResult<CaTrust>)
    ensures
        debug_build ==> r is Ok,
        r matches Ok(t) ==> (t == CaTrust::RootCertificate || (debug_build && t
            == CaTrust::AcceptInvalidCertificates)),
        r is Err ==> !debug_build,
        r is Err ==> (r matches Err(AppError::Other(m)) && m@ == missing_ca_message(ca_path@)),
        exists|ca_exists: bool|
            #[trigger] disk_reported(ca_path@, ca_exists) && (ca_exists ==> r == Ok::<
                CaTrust,
                AppError,
            >(CaTrust::RootCertificate)) && (!ca_exists && debug_build ==> r == Ok::<
                CaTrust,
                AppError,
            >(CaTrust::AcceptInvalidCertificates)) && (!ca_exists && !debug_build ==> (r matches Err(
                AppError::Other(m),
            ) && m@ == missing_ca_message(ca_path@))),
{
    let exists = path_exists(ca_path);
    ca_trust_for(ca_path, exists, debug_build)
}

} // verus!
