//! What each step of an issuance hands to the certificate authority or
//! writes to disk, spelled out for one job.

use vstd::prelude::*;
use vstd::string::StringExecFns;
use crate::cert::{clone_text, clone_texts, CertBuilder, CertBuilderView};
use crate::error::LifecycleError;
use crate::issuer::{
    endpoint_for, issuer_step, state_in_range, Endpoint, Issuer, IssuerAction, IssuerEvent,
    IssuerState, IssuerView,
};

verus! {

/// The directory of the authority's staging service.
pub const STAGING_DIRECTORY_URL: &'static str =
    "https://acme-staging.api.letsencrypt.org/directory";

/// A step of an issuance together with the values it works on.
#[derive(Debug)]
pub enum IssuerRequest {
    /// Open the directory at `url`, or the authority's production directory
    /// where there is none.
    OpenDirectory { url: Option<String> },
    /// Register an account, with this contact address if there is one.
    RegisterAccount { email: Option<String> },
    /// Ask for an authorization of this domain.
    Authorize { domain: String },
    /// Write the key authorization of the challenge at hand below this
    /// directory.
    SaveProof { nonce_directory: String },
    /// Ask the authority to validate the challenge at hand.
    Validate,
    /// Ask for one certificate over these domains, in this order.
    Sign { domains: Vec<String> },
    /// Write the signed chain to this path.
    SaveCertificate { path: String },
    /// Write the private key to this path.
    SavePrivateKey { path: String },
    /// The certificate is issued.
    Finish,
    /// The attempt failed.
    Abort(LifecycleError),
}

/// What an `IssuerRequest` stands for.
pub enum IssuerRequestView {
    OpenDirectory { url: Option<Seq<char>> },
    RegisterAccount { email: Option<Seq<char>> },
    Authorize { domain: Seq<char> },
    SaveProof { nonce_directory: Seq<char> },
    Validate,
    Sign { domains: Seq<Seq<char>> },
    SaveCertificate { path: Seq<char> },
    SavePrivateKey { path: Seq<char> },
    Finish,
    Abort(LifecycleError),
}

impl View for IssuerRequest {
    type V = IssuerRequestView;

    open spec fn view(&self) -> IssuerRequestView {
        match self {
            IssuerRequest::OpenDirectory { url } => IssuerRequestView::OpenDirectory {
                url: url.deep_view(),
            },
            IssuerRequest::RegisterAccount { email } => IssuerRequestView::RegisterAccount {
                email: email.deep_view(),
            },
            IssuerRequest::Authorize { domain } => IssuerRequestView::Authorize { domain: domain@ },
            IssuerRequest::SaveProof { nonce_directory } => IssuerRequestView::SaveProof {
                nonce_directory: nonce_directory@,
            },
            IssuerRequest::Validate => IssuerRequestView::Validate,
            IssuerRequest::Sign { domains } => IssuerRequestView::Sign {
                domains: domains.deep_view(),
            },
            IssuerRequest::SaveCertificate { path } => IssuerRequestView::SaveCertificate {
                path: path@,
            },
            IssuerRequest::SavePrivateKey { path } => IssuerRequestView::SavePrivateKey {
                path: path@,
            },
            IssuerRequest::Finish => IssuerRequestView::Finish,
            IssuerRequest::Abort(e) => IssuerRequestView::Abort(*e),
        }
    }
}

impl DeepView for IssuerRequest {
    type V = IssuerRequestView;

    open spec fn deep_view(&self) -> IssuerRequestView {
        self@
    }
}

/// The values that `action` works on for `job`. There is none for an action
/// that names a domain which the job lacks, or a path that is not resolved.
pub open spec fn request_for(
    job: CertBuilderView,
    nonce_directory: Seq<char>,
    action: IssuerAction,
) -> Option<IssuerRequestView> {
    match action {
        IssuerAction::OpenDirectory(Endpoint::Production) => Some(
            IssuerRequestView::OpenDirectory { url: None },
        ),
        IssuerAction::OpenDirectory(Endpoint::Staging) => Some(
            IssuerRequestView::OpenDirectory { url: Some(STAGING_DIRECTORY_URL@) },
        ),
        IssuerAction::RegisterAccount => Some(
            IssuerRequestView::RegisterAccount { email: job.email },
        ),
        IssuerAction::Authorize(i) => if i < job.domains.len() {
            Some(IssuerRequestView::Authorize { domain: job.domains[i as int] })
        } else {
            None
        },
        IssuerAction::SaveProof(i) => if i < job.domains.len() {
            Some(IssuerRequestView::SaveProof { nonce_directory })
        } else {
            None
        },
        IssuerAction::Validate(i) => if i < job.domains.len() {
            Some(IssuerRequestView::Validate)
        } else {
            None
        },
        IssuerAction::Sign => Some(IssuerRequestView::Sign { domains: job.domains }),
        IssuerAction::SaveCertificate => match job.cert_path {
            Some(path) => Some(IssuerRequestView::SaveCertificate { path }),
            None => None,
        },
        IssuerAction::SavePrivateKey => match job.key_path {
            Some(path) => Some(IssuerRequestView::SavePrivateKey { path }),
            None => None,
        },
        IssuerAction::Finish => Some(IssuerRequestView::Finish),
        IssuerAction::Abort(e) => Some(IssuerRequestView::Abort(e)),
    }
}

impl CertBuilder {
    /// Begins an attempt to issue this job's certificate: an issuer for the
    /// job's domains, and the first thing to do.
    pub fn issuer(&self) -> (begun: (Issuer, IssuerAction))
        ensures
            begun.0@ == (IssuerView {
                domain_count: self@.domains.len(),
                state: IssuerState::OpeningDirectory,
            }),
            begun.1 == IssuerAction::OpenDirectory(endpoint_for(self@.production)),
    {
        Issuer::start(self.is_production(), self.domains().len())
    }

    /// Spells out a step of this job's issuance.
    pub fn request(&self, action: IssuerAction, nonce_directory: &str) -> (request: Option<
        IssuerRequest,
    >)
        ensures
            request.deep_view() == request_for(self@, nonce_directory@, action),
    {
        let domains = self.domains();
        match action {
            IssuerAction::OpenDirectory(Endpoint::Production) => Some(
                IssuerRequest::OpenDirectory { url: None },
            ),
            IssuerAction::OpenDirectory(Endpoint::Staging) => Some(
                IssuerRequest::OpenDirectory { url: Some(String::from_str(STAGING_DIRECTORY_URL)) },
            ),
            IssuerAction::RegisterAccount => Some(
                IssuerRequest::RegisterAccount { email: clone_text(self.contact_email()) },
            ),
            IssuerAction::Authorize(i) => if i < domains.len() {
                Some(IssuerRequest::Authorize { domain: domains[i].clone() })
            } else {
                None
            },
            IssuerAction::SaveProof(i) => if i < domains.len() {
                Some(IssuerRequest::SaveProof { nonce_directory: String::from_str(nonce_directory) })
            } else {
                None
            },
            IssuerAction::Validate(i) => if i < domains.len() {
                Some(IssuerRequest::Validate)
            } else {
                None
            },
            IssuerAction::Sign => Some(IssuerRequest::Sign { domains: clone_texts(domains) }),
            IssuerAction::SaveCertificate => match self.cert_path() {
                Some(path) => Some(IssuerRequest::SaveCertificate { path: path.clone() }),
                None => None,
            },
            IssuerAction::SavePrivateKey => match self.key_path() {
                Some(path) => Some(IssuerRequest::SavePrivateKey { path: path.clone() }),
                None => None,
            },
            IssuerAction::Finish => Some(IssuerRequest::Finish),
            IssuerAction::Abort(e) => Some(IssuerRequest::Abort(e)),
        }
    }
}

/// Every step that an issuer for a job asks for can be spelled out for that
/// job, once the job's paths are resolved.
pub proof fn every_step_has_a_request(
    job: CertBuilderView,
    nonce_directory: Seq<char>,
    state: IssuerState,
    event: IssuerEvent,
)
    requires
        job.paths_resolved(),
        job.domains.len() <= usize::MAX,
        state_in_range(job.domains.len(), state),
    ensures
        request_for(job, nonce_directory, issuer_step(job.domains.len(), state, event).1) is Some,
        request_for(
            job,
            nonce_directory,
            IssuerAction::OpenDirectory(endpoint_for(job.production)),
        ) is Some,
{
}

/// The certificate is asked for over all the job's domains in their order,
/// and the two files go to the job's own paths.
pub proof fn requests_use_the_jobs_values(job: CertBuilderView, nonce_directory: Seq<char>)
    requires
        job.paths_resolved(),
    ensures
        request_for(job, nonce_directory, IssuerAction::Sign) == Some(
            IssuerRequestView::Sign { domains: job.domains },
        ),
        request_for(job, nonce_directory, IssuerAction::SaveCertificate) == Some(
            IssuerRequestView::SaveCertificate { path: job.cert_path.unwrap() },
        ),
        request_for(job, nonce_directory, IssuerAction::SavePrivateKey) == Some(
            IssuerRequestView::SavePrivateKey { path: job.key_path.unwrap() },
        ),
{
}

} // verus!
