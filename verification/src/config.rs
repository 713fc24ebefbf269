//! Configuration as it is read: every option may be left out. Turning a
//! configuration into an engine fills in the defaults, refuses malformed jobs
//! and resolves every job's paths, once.

use vstd::prelude::*;
use crate::cert::{
    clone_texts, default_recheck_interval, default_renewal_window, BindAddr, CertBuilder,
    CertBuilderView,
};
use crate::engine::{LetsEncrypt, LetsEncryptView};
use crate::error::LifecycleError;
use crate::time::TimeSpan;

verus! {

/// The configuration of one job.
#[derive(Debug)]
pub struct JobConfig {
    /// The addresses to bind. Required.
    pub addrs: Vec<BindAddr>,
    /// The domains of the certificate. Required.
    pub domains: Vec<String>,
    /// The contact address.
    pub email: Option<String>,
    /// Whether to use the production directory. Default: yes.
    pub production: Option<bool>,
    /// The renewal window. Default: 30 days.
    pub renew_within: Option<TimeSpan>,
    /// The time between two checks. Default: 12 hours.
    pub check_every: Option<TimeSpan>,
    /// The path of the key file. Default: named after the first domain.
    pub key_path: Option<String>,
    /// The path of the certificate file. Default: named after the first
    /// domain.
    pub cert_path: Option<String>,
}

/// What a `JobConfig` stands for.
pub struct JobConfigView {
    pub addrs: Seq<BindAddr>,
    pub domains: Seq<Seq<char>>,
    pub email: Option<Seq<char>>,
    pub production: Option<bool>,
    pub renew_within: Option<TimeSpan>,
    pub check_every: Option<TimeSpan>,
    pub key_path: Option<Seq<char>>,
    pub cert_path: Option<Seq<char>>,
}

impl View for JobConfig {
    type V = JobConfigView;

    open spec fn view(&self) -> JobConfigView {
        JobConfigView {
            addrs: self.addrs@,
            domains: self.domains.deep_view(),
            email: self.email.deep_view(),
            production: self.production,
            renew_within: self.renew_within,
            check_every: self.check_every,
            key_path: self.key_path.deep_view(),
            cert_path: self.cert_path.deep_view(),
        }
    }
}

impl DeepView for JobConfig {
    type V = JobConfigView;

    open spec fn deep_view(&self) -> JobConfigView {
        self@
    }
}

impl JobConfigView {
    /// A job needs an address to bind and a domain.
    pub open spec fn valid(self) -> bool {
        self.addrs.len() > 0 && self.domains.len() > 0
    }

    /// The job that the configuration describes, with the defaults filled
    /// in and the paths as they were given.
    pub open spec fn job(self) -> CertBuilderView {
        CertBuilderView {
            addrs: self.addrs,
            domains: self.domains,
            email: self.email,
            production: match self.production {
                Some(production) => production,
                None => true,
            },
            renew_within: match self.renew_within {
                Some(window) => window,
                None => default_renewal_window(),
            },
            check_every: match self.check_every {
                Some(period) => period,
                None => default_recheck_interval(),
            },
            key_path: self.key_path,
            cert_path: self.cert_path,
        }
    }
}

/// The configuration of an engine.
#[derive(Debug)]
pub struct EngineConfig {
    /// The nonce directory. Default: `/var/tmp/lets_encrypt`.
    pub nonce_directory: Option<String>,
    /// The SSL directory. Default: `/ssl`.
    pub ssl_directory: Option<String>,
    /// The jobs. Required, and may be empty.
    pub cert_builders: Vec<JobConfig>,
}

/// What an `EngineConfig` stands for.
pub struct EngineConfigView {
    pub nonce_directory: Option<Seq<char>>,
    pub ssl_directory: Option<Seq<char>>,
    pub cert_builders: Seq<JobConfigView>,
}

impl View for EngineConfig {
    type V = EngineConfigView;

    open spec fn view(&self) -> EngineConfigView {
        EngineConfigView {
            nonce_directory: self.nonce_directory.deep_view(),
            ssl_directory: self.ssl_directory.deep_view(),
            cert_builders: self.cert_builders.deep_view(),
        }
    }
}

impl EngineConfigView {
    /// Every job of the configuration is valid.
    pub open spec fn valid(self) -> bool {
        forall|i: int| 0 <= i < self.cert_builders.len() ==> (#[trigger] self.cert_builders[i]).valid()
    }

    /// The engine's directories, with the defaults filled in, before any job
    /// is added.
    pub open spec fn base(self) -> LetsEncryptView {
        LetsEncryptView {
            nonce_directory: match self.nonce_directory {
                Some(path) => path,
                None => "/var/tmp/lets_encrypt"@,
            },
            ssl_directory: match self.ssl_directory {
                Some(path) => path,
                None => "/ssl"@,
            },
            cert_builders: Seq::empty(),
        }
    }

    /// The jobs that the configuration describes, as they are before their
    /// paths are resolved.
    pub open spec fn jobs(self) -> Seq<CertBuilderView> {
        Seq::new(self.cert_builders.len(), |i: int| self.cert_builders[i].job())
    }

    /// The engine that the configuration describes: every job added in its
    /// order, its paths resolved against the SSL directory.
    pub open spec fn engine(self) -> LetsEncryptView {
        self.base().with_certs(self.jobs(), self.cert_builders.len())
    }
}

impl CertBuilder {
    /// The job that a configuration describes. A configuration without an
    /// address or without a domain is refused.
    pub fn from_config(config: &JobConfig) -> (made: Result<CertBuilder, LifecycleError>)
        ensures
            match made {
                Ok(job) => config@.valid() && job@ == config@.job(),
                Err(e) => e == LifecycleError::Configuration && !config@.valid(),
            },
    {
        let addrs = config.addrs.clone();
        let job = match CertBuilder::new(addrs, clone_texts(&config.domains)) {
            Ok(job) => job,
            Err(e) => {
                return Err(e);
            },
        };
        let job = match &config.email {
            Some(email) => job.email(email.as_str()),
            None => job,
        };
        let job = match config.production {
            Some(false) => job.test(),
            _ => job,
        };
        let job = match &config.renew_within {
            Some(window) => job.renew_within(window),
            None => job,
        };
        let job = match &config.check_every {
            Some(period) => job.check_every(period),
            None => job,
        };
        let job = match &config.key_path {
            Some(path) => job.with_key_path(path.as_str()),
            None => job,
        };
        let job = match &config.cert_path {
            Some(path) => job.with_cert_path(path.as_str()),
            None => job,
        };
        Ok(job)
    }
}

impl LetsEncrypt {
    /// The engine that a configuration describes. The defaults are filled in,
    /// and each job is added as `add_cert` adds it, so that its paths are
    /// resolved against the configured SSL directory. One malformed job has
    /// the whole configuration refused.
    pub fn from_config(config: &EngineConfig) -> (made: Result<LetsEncrypt, LifecycleError>)
        ensures
            match made {
                Ok(engine) => config@.valid() && engine@ == config@.engine(),
                Err(e) => e == LifecycleError::Configuration && !config@.valid(),
            },
    {
        let mut engine = LetsEncrypt::encryption_enabler();
        match &config.nonce_directory {
            Some(path) => {
                engine = engine.nonce_directory(path.as_str());
            },
            None => {},
        }
        match &config.ssl_directory {
            Some(path) => {
                engine = engine.ssl_directory(path.as_str());
            },
            None => {},
        }
        let mut i: usize = 0;
        while i < config.cert_builders.len()
            invariant
                i <= config.cert_builders.len(),
                engine@ == config@.base().with_certs(config@.jobs(), i as nat),
                forall|k: int| 0 <= k < i ==> (#[trigger] config@.cert_builders[k]).valid(),
            decreases config.cert_builders.len() - i,
        {
            match CertBuilder::from_config(&config.cert_builders[i]) {
                Ok(job) => {
                    engine = engine.add_cert(job);
                },
                Err(e) => {
                    assert(!config@.cert_builders[i as int].valid());
                    return Err(e);
                },
            }
            i = i + 1;
        }
        Ok(engine)
    }
}

} // verus!
