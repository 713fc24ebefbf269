//! Which jobs the server can serve over TLS, and from which files.

use vstd::prelude::*;
use crate::cert::{BindAddr, CertBuilder, CertBuilderView};
use crate::engine::LetsEncrypt;

verus! {

/// One TLS listener to set up: the address to bind, and the files that hold
/// the private key and the certificate chain.
#[derive(Debug)]
pub struct TlsBinding {
    /// The index of the job among the engine's jobs.
    pub job: usize,
    /// The first address of the job.
    pub addr: BindAddr,
    /// The path of the PEM file with the private key.
    pub key_path: String,
    /// The path of the PEM file with the certificate chain.
    pub cert_path: String,
}

/// What a `TlsBinding` stands for.
pub struct TlsBindingView {
    pub job: int,
    pub addr: BindAddr,
    pub key_path: Seq<char>,
    pub cert_path: Seq<char>,
}

impl View for TlsBinding {
    type V = TlsBindingView;

    open spec fn view(&self) -> TlsBindingView {
        TlsBindingView {
            job: self.job as int,
            addr: self.addr,
            key_path: self.key_path@,
            cert_path: self.cert_path@,
        }
    }
}

impl DeepView for TlsBinding {
    type V = TlsBindingView;

    open spec fn deep_view(&self) -> TlsBindingView {
        self@
    }
}

/// The files of `job` were found on disk: `present` says so, job by job; a job
/// that it does not reach counts as absent.
pub open spec fn is_present(present: Seq<bool>, job: int) -> bool {
    0 <= job < present.len() && present[job]
}

/// The listener of the job with this index.
pub open spec fn binding_of(index: int, job: CertBuilderView) -> TlsBindingView {
    TlsBindingView {
        job: index,
        addr: job.addrs[0],
        key_path: job.key_path.unwrap(),
        cert_path: job.cert_path.unwrap(),
    }
}

/// The listeners of the first `n` jobs: one for each job whose files are
/// present, in the order of the jobs.
pub open spec fn bindings_of(jobs: Seq<CertBuilderView>, present: Seq<bool>, n: nat) -> Seq<
    TlsBindingView,
>
    decreases n,
{
    if n == 0 {
        Seq::empty()
    } else {
        let before = bindings_of(jobs, present, (n - 1) as nat);
        if is_present(present, n - 1) {
            before.push(binding_of(n - 1, jobs[n - 1]))
        } else {
            before
        }
    }
}

impl LetsEncrypt {
    /// The TLS listeners to set up, given for each job whether its key file
    /// and its certificate file are both on disk. A job whose files are
    /// absent is passed over; one whose files are present is bound to its
    /// first address. Whether the certificate is still valid plays no part.
    pub fn tls_bindings(&self, present: &Vec<bool>) -> (bindings: Vec<TlsBinding>)
        ensures
            bindings.deep_view() == bindings_of(
                self@.cert_builders,
                present@,
                self@.cert_builders.len(),
            ),
    {
        let jobs = self.cert_builders();
        let mut bindings: Vec<TlsBinding> = Vec::new();
        let mut i: usize = 0;
        while i < jobs.len()
            invariant
                i <= jobs.len(),
                jobs.deep_view() == self@.cert_builders,
                self@.wf(),
                bindings.deep_view() == bindings_of(self@.cert_builders, present@, i as nat),
            decreases jobs.len() - i,
        {
            if i < present.len() && present[i] {
                let job: &CertBuilder = &jobs[i];
                match job.key_path() {
                    Some(key_path) => match job.cert_path() {
                        Some(cert_path) => {
                            let binding = TlsBinding {
                                job: i,
                                addr: job.addrs()[0],
                                key_path: key_path.clone(),
                                cert_path: cert_path.clone(),
                            };
                            bindings.push(binding);
                        },
                        None => {},
                    },
                    None => {},
                }
            }
            i = i + 1;
        }
        bindings
    }
}

/// The listeners are those of the jobs whose files are present, each once
/// and in the order of the jobs: every listener belongs to a present job and
/// carries that job's first address and resolved paths; every present job has
/// a listener; and the listeners' job indices rise.
pub proof fn bindings_are_the_present_jobs(jobs: Seq<CertBuilderView>, present: Seq<bool>, n: nat)
    ensures
        forall|k: int|
            0 <= k < bindings_of(jobs, present, n).len() ==> {
                let binding = #[trigger] bindings_of(jobs, present, n)[k];
                &&& 0 <= binding.job < n
                &&& is_present(present, binding.job)
                &&& binding == binding_of(binding.job, jobs[binding.job])
            },
        forall|j: int|
            0 <= j < n && #[trigger] is_present(present, j) ==> exists|k: int|
                0 <= k < bindings_of(jobs, present, n).len() && (#[trigger] bindings_of(
                    jobs,
                    present,
                    n,
                )[k]).job == j,
        forall|k: int, l: int|
            0 <= k < l < bindings_of(jobs, present, n).len() ==> (#[trigger] bindings_of(
                jobs,
                present,
                n,
            )[k]).job < (#[trigger] bindings_of(jobs, present, n)[l]).job,
        bindings_of(jobs, present, n).len() <= n,
    decreases n,
{
    if n > 0 {
        let m = (n - 1) as nat;
        bindings_are_the_present_jobs(jobs, present, m);
        let before = bindings_of(jobs, present, m);
        let all = bindings_of(jobs, present, n);
        if is_present(present, n - 1) {
            assert forall|j: int| 0 <= j < n && #[trigger] is_present(present, j) implies exists|
                k: int,
            |
                0 <= k < all.len() && (#[trigger] all[k]).job == j by {
                if j < n - 1 {
                    let k = choose|k: int| 0 <= k < before.len() && (#[trigger] before[k]).job == j;
                    assert(all[k].job == j);
                } else {
                    assert(all[before.len() as int].job == j);
                }
            }
        }
    }
}

} // verus!
