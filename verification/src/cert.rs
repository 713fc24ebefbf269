//! One certificate job: the domains that share a certificate, where the
//! server listens for them, and how the certificate is kept fresh.

use vstd::prelude::*;
use vstd::string::StringExecFns;
use crate::error::LifecycleError;
use crate::expiry::{
    certificate_not_after, clock_now, decide_renewal, file_bytes, renewal_verdict,
};
use crate::paths::{path_is_absolute, resolve_path, resolved_path};
use crate::time::{Instant, TimeSpan, SECS_IN_DAY, SECS_IN_HOUR};

verus! {

/// A socket address that the server binds: an IP address and a port.
#[derive(Clone, Copy, Debug, PartialEq, Eq)]
pub enum BindAddr {
    /// An IPv4 address, given by its four octets.
    V4 { octets: [u8; 4], port: u16 },
    /// An IPv6 address, given by its eight segments, with flow information
    /// and scope.
    V6 { segments: [u16; 8], port: u16, flowinfo: u32, scope_id: u32 },
}

/// The renewal window of a job that names none: 30 days.
pub open spec fn default_renewal_window() -> TimeSpan {
    TimeSpan { secs: (30 * SECS_IN_DAY) as u64, nanos: 0 }
}

/// The time between two checks of a job that names none: 12 hours.
pub open spec fn default_recheck_interval() -> TimeSpan {
    TimeSpan { secs: (12 * SECS_IN_HOUR) as u64, nanos: 0 }
}

/// A certificate job.
#[derive(Debug)]
pub struct CertBuilder {
    addrs: Vec<BindAddr>,
    domains: Vec<String>,
    email: Option<String>,
    production: bool,
    renew_within: TimeSpan,
    check_every: TimeSpan,
    key_path: Option<String>,
    cert_path: Option<String>,
}

/// What a `CertBuilder` stands for.
pub struct CertBuilderView {
    /// The addresses to bind, in the order given.
    pub addrs: Seq<BindAddr>,
    /// The domains of the certificate, in the order given.
    pub domains: Seq<Seq<char>>,
    /// The contact address handed to the authority.
    pub email: Option<Seq<char>>,
    /// Whether the authority's production directory is used.
    pub production: bool,
    /// The certificate is renewed once less than this is left of it.
    pub renew_within: TimeSpan,
    /// The time between two checks.
    pub check_every: TimeSpan,
    /// The path of the key file.
    pub key_path: Option<Seq<char>>,
    /// The path of the certificate file.
    pub cert_path: Option<Seq<char>>,
}

impl CertBuilderView {
    /// A job has an address to bind and a domain.
    pub open spec fn wf(self) -> bool {
        self.addrs.len() > 0 && self.domains.len() > 0
    }

    /// The job for these addresses and domains with every option at its
    /// default.
    pub open spec fn fresh(addrs: Seq<BindAddr>, domains: Seq<Seq<char>>) -> CertBuilderView {
        CertBuilderView {
            addrs,
            domains,
            email: None,
            production: true,
            renew_within: default_renewal_window(),
            check_every: default_recheck_interval(),
            key_path: None,
            cert_path: None,
        }
    }

    /// Both paths are resolved.
    pub open spec fn paths_resolved(self) -> bool {
        self.key_path is Some && self.cert_path is Some
    }

    /// The job with its key path resolved against `ssl_directory`.
    pub open spec fn with_key_resolved(self, ssl_directory: Seq<char>) -> CertBuilderView {
        CertBuilderView {
            key_path: Some(resolved_path(self.key_path, "key"@, ssl_directory, self.domains)),
            ..self
        }
    }

    /// The job with its certificate path resolved against `ssl_directory`.
    pub open spec fn with_cert_resolved(self, ssl_directory: Seq<char>) -> CertBuilderView {
        CertBuilderView {
            cert_path: Some(resolved_path(self.cert_path, "cert"@, ssl_directory, self.domains)),
            ..self
        }
    }

    /// The job with both paths resolved against `ssl_directory`.
    pub open spec fn resolved(self, ssl_directory: Seq<char>) -> CertBuilderView {
        self.with_key_resolved(ssl_directory).with_cert_resolved(ssl_directory)
    }
}

impl View for CertBuilder {
    type V = CertBuilderView;

    closed spec fn view(&self) -> CertBuilderView {
        CertBuilderView {
            addrs: self.addrs@,
            domains: self.domains.deep_view(),
            email: self.email.deep_view(),
            production: self.production,
            renew_within: self.renew_within,
            check_every: self.check_every,
            key_path: self.key_path.deep_view(),
            cert_path: self.cert_path.deep_view(),
        }
    }
}

impl DeepView for CertBuilder {
    type V = CertBuilderView;

    open spec fn deep_view(&self) -> CertBuilderView {
        self@
    }
}

impl CertBuilder {
    /// Every job is well formed.
    #[verifier::type_invariant]
    pub open spec fn well_formed(self) -> bool {
        self@.wf()
    }

    /// A production job for the given addresses and domains, with a renewal
    /// window of 30 days, a check every 12 hours, no contact address and the
    /// default file names. A job without an address or without a domain is
    /// malformed.
    pub fn new(addrs: Vec<BindAddr>, domains: Vec<String>) -> (made: Result<
        CertBuilder,
        LifecycleError,
    >)
        ensures
            match made {
                Ok(job) => addrs@.len() > 0 && domains@.len() > 0 && job@ == CertBuilderView::fresh(
                    addrs@,
                    domains.deep_view(),
                ),
                Err(e) => e == LifecycleError::Configuration && (addrs@.len() == 0
                    || domains@.len() == 0),
            },
    {
        if addrs.len() == 0 || domains.len() == 0 {
            return Err(LifecycleError::Configuration);
        }
        Ok(
            CertBuilder {
                addrs,
                domains,
                email: None,
                production: Self::default_production(),
                renew_within: Self::default_renew_within(),
                check_every: Self::default_check_every(),
                key_path: None,
                cert_path: None,
            },
        )
    }

    /// A job uses the production directory unless told otherwise.
    pub fn default_production() -> (production: bool)
        ensures
            production,
    {
        true
    }

    /// The default renewal window: 30 days.
    pub fn default_renew_within() -> (window: TimeSpan)
        ensures
            window == default_renewal_window(),
            window.total_nanos() == 30 * 86_400 * 1_000_000_000int,
    {
        TimeSpan::from_secs(30 * SECS_IN_DAY)
    }

    /// The default time between two checks: 12 hours.
    pub fn default_check_every() -> (period: TimeSpan)
        ensures
            period == default_recheck_interval(),
            period.total_nanos() == 12 * 3_600 * 1_000_000_000int,
    {
        TimeSpan::from_secs(12 * SECS_IN_HOUR)
    }

    /// Sets the contact address.
    pub fn email(self, email: &str) -> (job: Self)
        ensures
            job@ == (CertBuilderView { email: Some(email@), ..self@ }),
    {
        proof {
            use_type_invariant(&self);
        }
        let mut job = self;
        job.email = Some(String::from_str(email));
        job
    }

    /// Switches to the authority's staging directory.
    pub fn test(self) -> (job: Self)
        ensures
            job@ == (CertBuilderView { production: false, ..self@ }),
    {
        proof {
            use_type_invariant(&self);
        }
        let mut job = self;
        job.production = false;
        job
    }

    /// Sets the renewal window.
    pub fn renew_within(self, renewal: &TimeSpan) -> (job: Self)
        ensures
            job@ == (CertBuilderView { renew_within: *renewal, ..self@ }),
    {
        proof {
            use_type_invariant(&self);
        }
        let mut job = self;
        job.renew_within = *renewal;
        job
    }

    /// Sets the time between two checks.
    pub fn check_every(self, period: &TimeSpan) -> (job: Self)
        ensures
            job@ == (CertBuilderView { check_every: *period, ..self@ }),
    {
        proof {
            use_type_invariant(&self);
        }
        let mut job = self;
        job.check_every = *period;
        job
    }

    /// Names the key file, in place of the default name.
    pub fn with_key_path(self, path: &str) -> (job: Self)
        ensures
            job@ == (CertBuilderView { key_path: Some(path@), ..self@ }),
    {
        proof {
            use_type_invariant(&self);
        }
        let mut job = self;
        job.key_path = Some(String::from_str(path));
        job
    }

    /// Names the certificate file, in place of the default name.
    pub fn with_cert_path(self, path: &str) -> (job: Self)
        ensures
            job@ == (CertBuilderView { cert_path: Some(path@), ..self@ }),
    {
        proof {
            use_type_invariant(&self);
        }
        let mut job = self;
        job.cert_path = Some(String::from_str(path));
        job
    }

    /// The addresses to bind: there is at least one.
    pub fn addrs(&self) -> (addrs: &Vec<BindAddr>)
        ensures
            addrs@ == self@.addrs,
            addrs@.len() > 0,
    {
        proof {
            use_type_invariant(self);
        }
        &self.addrs
    }

    /// The domains of the certificate: there is at least one.
    pub fn domains(&self) -> (domains: &Vec<String>)
        ensures
            domains.deep_view() == self@.domains,
            domains@.len() > 0,
    {
        proof {
            use_type_invariant(self);
        }
        &self.domains
    }

    /// The contact address.
    pub fn contact_email(&self) -> (email: &Option<String>)
        ensures
            email.deep_view() == self@.email,
    {
        &self.email
    }

    /// Whether the job uses the production directory.
    pub fn is_production(&self) -> (production: bool)
        ensures
            production == self@.production,
    {
        self.production
    }

    /// The renewal window.
    pub fn renewal_window(&self) -> (window: TimeSpan)
        ensures
            window == self@.renew_within,
    {
        self.renew_within
    }

    /// The time between two checks.
    pub fn recheck_interval(&self) -> (period: TimeSpan)
        ensures
            period == self@.check_every,
    {
        self.check_every
    }

    /// The path of the key file.
    pub fn key_path(&self) -> (path: &Option<String>)
        ensures
            path.deep_view() == self@.key_path,
    {
        &self.key_path
    }

    /// The path of the certificate file.
    pub fn cert_path(&self) -> (path: &Option<String>)
        ensures
            path.deep_view() == self@.cert_path,
    {
        &self.cert_path
    }

    /// Resolves the key path against the SSL directory.
    pub fn update_key_path(&mut self, ssl_directory: &str)
        ensures
            final(self)@ == old(self)@.with_key_resolved(ssl_directory@),
    {
        proof {
            use_type_invariant(&*self);
        }
        let resolved = resolve_path(&self.key_path, "key", ssl_directory, &self.domains);
        self.key_path = Some(resolved);
    }

    /// Resolves the certificate path against the SSL directory.
    pub fn update_cert_path(&mut self, ssl_directory: &str)
        ensures
            final(self)@ == old(self)@.with_cert_resolved(ssl_directory@),
    {
        proof {
            use_type_invariant(&*self);
        }
        let resolved = resolve_path(&self.cert_path, "cert", ssl_directory, &self.domains);
        self.cert_path = Some(resolved);
    }

    /// Whether a certificate has to be issued for this job right now, given
    /// what is on disk: whether the key file exists, and the bytes of the
    /// certificate file if it exists. A missing file and an unusable
    /// certificate are answered at once; only a certificate whose expiry was
    /// read is held against the clock, so the verdict is the one that
    /// `renewal_verdict` gives for some instant.
    pub fn needs_building(&self, key_present: bool, certificate: Option<&[u8]>) -> (verdict: Result<
        bool,
        LifecycleError,
    >)
        ensures
            !key_present || certificate is None ==> verdict == Ok::<bool, LifecycleError>(true),
            exists|now: Instant|
                verdict == #[trigger] renewal_verdict(
                    key_present,
                    file_bytes(certificate),
                    now,
                    self@.renew_within,
                ),
    {
        let ghost epoch = Instant { secs: 0, nanos: 0 };
        if !key_present {
            assert(Ok::<bool, LifecycleError>(true) == renewal_verdict(
                key_present,
                file_bytes(certificate),
                epoch,
                self@.renew_within,
            ));
            return Ok(true);
        }
        match certificate {
            None => {
                assert(Ok::<bool, LifecycleError>(true) == renewal_verdict(
                    key_present,
                    file_bytes(certificate),
                    epoch,
                    self@.renew_within,
                ));
                Ok(true)
            },
            Some(pem) => match certificate_not_after(pem) {
                Err(e) => {
                    assert(Err::<bool, LifecycleError>(e) == renewal_verdict(
                        key_present,
                        file_bytes(certificate),
                        epoch,
                        self@.renew_within,
                    ));
                    Err(e)
                },
                Ok(not_after) => {
                    let now = clock_now();
                    let verdict = decide_renewal(true, Some(Ok(not_after)), now, self.renew_within);
                    assert(verdict == renewal_verdict(
                        key_present,
                        file_bytes(certificate),
                        now,
                        self@.renew_within,
                    ));
                    verdict
                },
            },
        }
    }
}

impl Clone for CertBuilder {
    /// A copy that stands for the same job.
    fn clone(&self) -> (copy: Self)
        ensures
            copy@ == self@,
    {
        proof {
            use_type_invariant(self);
        }
        CertBuilder {
            addrs: self.addrs.clone(),
            domains: clone_texts(&self.domains),
            email: clone_text(&self.email),
            production: self.production,
            renew_within: self.renew_within,
            check_every: self.check_every,
            key_path: clone_text(&self.key_path),
            cert_path: clone_text(&self.cert_path),
        }
    }
}

/// A copy of a text that may be absent.
pub fn clone_text(text: &Option<String>) -> (copy: Option<String>)
    ensures
        copy.deep_view() == text.deep_view(),
{
    match text {
        Some(t) => Some(t.clone()),
        None => None,
    }
}

/// A copy of a list of texts.
pub fn clone_texts(texts: &Vec<String>) -> (copy: Vec<String>)
    ensures
        copy.deep_view() == texts.deep_view(),
        copy@.len() == texts@.len(),
{
    let mut copy: Vec<String> = Vec::new();
    let mut i: usize = 0;
    while i < texts.len()
        invariant
            i <= texts.len(),
            copy@.len() == i,
            forall|k: int| 0 <= k < i ==> copy@[k]@ == texts@[k]@,
        decreases texts.len() - i,
    {
        copy.push(texts[i].clone());
        i = i + 1;
    }
    copy
}

/// Resolving a job twice changes nothing where the first resolution gave
/// absolute paths: such a job is resolved to itself, against any directory.
pub proof fn resolved_job_stays(
    job: CertBuilderView,
    ssl_directory: Seq<char>,
    later_directory: Seq<char>,
)
    ensures
        job.paths_resolved() && path_is_absolute(job.key_path.unwrap()) && path_is_absolute(
            job.cert_path.unwrap(),
        ) ==> job.resolved(later_directory) == job,
        ({
            let once = job.resolved(ssl_directory);
            path_is_absolute(once.key_path.unwrap()) && path_is_absolute(once.cert_path.unwrap())
                ==> once.resolved(later_directory) == once
        }),
        job.resolved(ssl_directory).paths_resolved(),
        job.wf() ==> job.resolved(ssl_directory).wf(),
{
}

} // verus!
