//! Certificate lifecycle engine: decides when a domain certificate must be
//! issued or renewed, sequences the issuance steps, and schedules rechecks.
//!
//! The library computes and decides; it reads no file and opens no socket.
//! Its caller looks at the disk, talks to the certificate authority and runs
//! the timers, and asks the library what follows from what it found:
//!
//! - `paths`: where a job's key and certificate files lie;
//! - `expiry`: whether a certificate has to be issued or renewed;
//! - `issuer` and `request`: the steps of an issuance and what each works on;
//! - `scheduler`: when each job is looked at again, and the restart signal;
//! - `challenge`: the answer to an HTTP-01 challenge request;
//! - `tls`: the listeners of the jobs whose files are in place;
//! - `cert`, `engine` and `config`: the jobs, the engine and its configuration.

pub mod cert;
pub mod challenge;
pub mod config;
pub mod engine;
pub mod error;
pub mod expiry;
pub mod issuer;
pub mod paths;
pub mod request;
pub mod scheduler;
pub mod time;
pub mod tls;

pub use cert::{BindAddr, CertBuilder, CertBuilderView};
pub use challenge::{is_valid_token, respond, ChallengeResponse};
pub use config::{EngineConfig, JobConfig};
pub use engine::{LetsEncrypt, LetsEncryptView};
pub use error::LifecycleError;
pub use expiry::{
    certificate_not_after, decide_renewal, has_encryption_header, is_renewal_due, needs_renewal,
};
pub use issuer::{Endpoint, Issuer, IssuerAction, IssuerEvent, IssuerState};
pub use paths::{default_name, is_one_name, resolve_path, update_path, PathPart};
pub use request::{IssuerRequest, IssuerRequestView, STAGING_DIRECTORY_URL};
pub use scheduler::{CheckAction, IssueAction, JobPhase, Scheduler, SchedulerView, StartupOutcome};
pub use time::{Instant, TimeSpan};
pub use tls::{TlsBinding, TlsBindingView};
