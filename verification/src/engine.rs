//! The engine: the directories it works in and the jobs it looks after.

use vstd::prelude::*;
use vstd::string::StringExecFns;
use crate::cert::{CertBuilder, CertBuilderView};
use crate::scheduler::{Scheduler, SchedulerView};
use crate::time::TimeSpan;

verus! {

/// The directories and the jobs of the certificate lifecycle.
#[derive(Debug)]
pub struct LetsEncrypt {
    nonce_directory: String,
    ssl_directory: String,
    cert_builders: Vec<CertBuilder>,
}

/// What a `LetsEncrypt` stands for.
pub struct LetsEncryptView {
    /// The root below which the proofs of domain control are written and
    /// served.
    pub nonce_directory: Seq<char>,
    /// The directory of the key and certificate files that name none.
    pub ssl_directory: Seq<char>,
    /// The jobs, in the order in which they were added.
    pub cert_builders: Seq<CertBuilderView>,
}

impl LetsEncryptView {
    /// Every job is well formed and has both its paths resolved.
    pub open spec fn wf(self) -> bool {
        forall|i: int|
            0 <= i < self.cert_builders.len() ==> (#[trigger] self.cert_builders[i]).wf()
                && self.cert_builders[i].paths_resolved()
    }

    /// The engine with one more job, its paths resolved against the SSL
    /// directory as it is now.
    pub open spec fn with_cert(self, cert: CertBuilderView) -> LetsEncryptView {
        LetsEncryptView {
            cert_builders: self.cert_builders.push(cert.resolved(self.ssl_directory)),
            ..self
        }
    }

    /// The engine with the first `n` of `certs` added in their order.
    pub open spec fn with_certs(self, certs: Seq<CertBuilderView>, n: nat) -> LetsEncryptView
        decreases n,
    {
        if n == 0 {
            self
        } else {
            self.with_certs(certs, (n - 1) as nat).with_cert(certs[n - 1])
        }
    }

    /// The time between two checks, job by job.
    pub open spec fn intervals(self) -> Seq<TimeSpan> {
        Seq::new(self.cert_builders.len(), |i: int| self.cert_builders[i].check_every)
    }
}

impl View for LetsEncrypt {
    type V = LetsEncryptView;

    closed spec fn view(&self) -> LetsEncryptView {
        LetsEncryptView {
            nonce_directory: self.nonce_directory@,
            ssl_directory: self.ssl_directory@,
            cert_builders: self.cert_builders.deep_view(),
        }
    }
}

impl LetsEncrypt {
    #[verifier::type_invariant]
    spec fn jobs_resolved(self) -> bool {
        forall|i: int|
            0 <= i < self.cert_builders@.len() ==> (#[trigger] self.cert_builders@[i])@.wf()
                && self.cert_builders@[i]@.paths_resolved()
    }

    /// An engine without jobs that writes proofs below
    /// `/var/tmp/lets_encrypt` and keeps keys and certificates in `/ssl`.
    pub fn encryption_enabler() -> (engine: Self)
        ensures
            engine@ == (LetsEncryptView {
                nonce_directory: "/var/tmp/lets_encrypt"@,
                ssl_directory: "/ssl"@,
                cert_builders: Seq::empty(),
            }),
            engine@.wf(),
    {
        let engine = LetsEncrypt {
            nonce_directory: Self::default_nonce_directory(),
            ssl_directory: Self::default_ssl_directory(),
            cert_builders: Vec::new(),
        };
        assert(engine@.cert_builders =~= Seq::empty());
        engine
    }

    /// The nonce directory of an engine that names none.
    pub fn default_nonce_directory() -> (path: String)
        ensures
            path@ == "/var/tmp/lets_encrypt"@,
    {
        String::from_str("/var/tmp/lets_encrypt")
    }

    /// The SSL directory of an engine that names none.
    pub fn default_ssl_directory() -> (path: String)
        ensures
            path@ == "/ssl"@,
    {
        String::from_str("/ssl")
    }

    /// Sets the nonce directory.
    pub fn nonce_directory(self, path: &str) -> (engine: Self)
        ensures
            engine@ == (LetsEncryptView { nonce_directory: path@, ..self@ }),
    {
        proof {
            use_type_invariant(&self);
        }
        let LetsEncrypt { nonce_directory: _, ssl_directory, cert_builders } = self;
        LetsEncrypt { nonce_directory: String::from_str(path), ssl_directory, cert_builders }
    }

    /// Sets the SSL directory. Jobs that were added before keep the paths
    /// they were given then.
    pub fn ssl_directory(self, path: &str) -> (engine: Self)
        ensures
            engine@ == (LetsEncryptView { ssl_directory: path@, ..self@ }),
    {
        proof {
            use_type_invariant(&self);
        }
        let LetsEncrypt { nonce_directory, ssl_directory: _, cert_builders } = self;
        LetsEncrypt { nonce_directory, ssl_directory: String::from_str(path), cert_builders }
    }

    /// Adds a job, its key and certificate paths resolved against the SSL
    /// directory.
    pub fn add_cert(self, cert: CertBuilder) -> (engine: Self)
        ensures
            engine@ == self@.with_cert(cert@),
    {
        proof {
            use_type_invariant(&self);
            use_type_invariant(&cert);
        }
        let mut job = cert;
        job.update_key_path(self.ssl_directory.as_str());
        job.update_cert_path(self.ssl_directory.as_str());
        let LetsEncrypt { nonce_directory, ssl_directory, cert_builders } = self;
        let mut cert_builders = cert_builders;
        cert_builders.push(job);
        let engine = LetsEncrypt { nonce_directory, ssl_directory, cert_builders };
        assert(engine@.cert_builders =~= self@.with_cert(cert@).cert_builders);
        engine
    }

    /// The nonce directory.
    pub fn nonce_dir(&self) -> (path: &String)
        ensures
            path@ == self@.nonce_directory,
    {
        &self.nonce_directory
    }

    /// The SSL directory.
    pub fn ssl_dir(&self) -> (path: &String)
        ensures
            path@ == self@.ssl_directory,
    {
        &self.ssl_directory
    }

    /// The jobs: each has both its paths resolved.
    pub fn cert_builders(&self) -> (jobs: &Vec<CertBuilder>)
        ensures
            jobs.deep_view() == self@.cert_builders,
            self@.wf(),
    {
        proof {
            use_type_invariant(self);
        }
        &self.cert_builders
    }

    /// A scheduler for the engine's jobs, each with its own time between
    /// checks, every job unexamined.
    pub fn scheduler(&self) -> (scheduler: Scheduler)
        ensures
            scheduler@ == SchedulerView::initial(self@.intervals()),
            scheduler@.wf(),
    {
        let mut intervals: Vec<TimeSpan> = Vec::new();
        let mut i: usize = 0;
        while i < self.cert_builders.len()
            invariant
                i <= self.cert_builders.len(),
                intervals@.len() == i,
                forall|k: int| 0 <= k < i ==> intervals@[k] == self.cert_builders@[k]@.check_every,
            decreases self.cert_builders.len() - i,
        {
            intervals.push(self.cert_builders[i].recheck_interval());
            i = i + 1;
        }
        assert(intervals@ =~= self@.intervals());
        Scheduler::new(intervals)
    }
}

impl Clone for LetsEncrypt {
    /// A copy that stands for the same engine.
    fn clone(&self) -> (copy: Self)
        ensures
            copy@ == self@,
    {
        proof {
            use_type_invariant(self);
        }
        let mut cert_builders: Vec<CertBuilder> = Vec::new();
        let mut i: usize = 0;
        while i < self.cert_builders.len()
            invariant
                i <= self.cert_builders.len(),
                cert_builders@.len() == i,
                forall|k: int| 0 <= k < i ==> (#[trigger] cert_builders@[k])@ == self.cert_builders@[k]@,
                forall|k: int|
                    0 <= k < self.cert_builders@.len() ==> (#[trigger] self.cert_builders@[k])@.wf()
                        && self.cert_builders@[k]@.paths_resolved(),
            decreases self.cert_builders.len() - i,
        {
            cert_builders.push(self.cert_builders[i].clone());
            i = i + 1;
        }
        let copy = LetsEncrypt {
            nonce_directory: self.nonce_directory.clone(),
            ssl_directory: self.ssl_directory.clone(),
            cert_builders,
        };
        assert(copy@.cert_builders =~= self@.cert_builders);
        copy
    }
}

} // verus!
