//! Whether a certificate has to be issued or renewed: it has, when a file
//! of the pair is missing or the certificate leaves its validity within the
//! renewal window.

use vstd::prelude::*;
use crate::error::LifecycleError;
use crate::time::{Instant, TimeSpan, NANOS_PER_SEC};

verus! {

/// The form in which a certificate's expiry is printed: month name, day,
/// time of day, year, and the zone, which is always GMT.
pub const NOT_AFTER_FORMAT: &'static str = "%b %d %H:%M:%S %Y GMT";

/// The longest input that the PEM reader takes.
pub const MAX_PEM_LEN: usize = 0x7fff_ffff;

/// The length of the word `Proc-Type`.
pub const PROC_TYPE_LEN: usize = 9;

/// The bytes of `pem` from index `i` on spell `Proc-Type`, the word that
/// opens every PEM encryption header.
pub open spec fn proc_type_at(pem: Seq<u8>, i: int) -> bool {
    &&& 0 <= i
    &&& i + PROC_TYPE_LEN <= pem.len()
    &&& pem[i] == 0x50
    &&& pem[i + 1] == 0x72
    &&& pem[i + 2] == 0x6f
    &&& pem[i + 3] == 0x63
    &&& pem[i + 4] == 0x2d
    &&& pem[i + 5] == 0x54
    &&& pem[i + 6] == 0x79
    &&& pem[i + 7] == 0x70
    &&& pem[i + 8] == 0x65
}

/// The bytes may hold a PEM encryption header: the word `Proc-Type` occurs
/// in them. A certificate is never encrypted, and the base64 text of one
/// cannot hold the word, so such a file is not a certificate to be read.
pub open spec fn holds_encryption_header(pem: Seq<u8>) -> bool {
    exists|i: int| proc_type_at(pem, i)
}

/// The text that the `openssl` crate prints for the `notAfter` field of the
/// first certificate in a PEM file; `None` where it finds no certificate that
/// it can parse.
pub uninterp spec fn pem_not_after(pem: Seq<u8>) -> Option<Seq<char>>;

/// The Unix time, in seconds, that `chrono` reads from `text` under the
/// strftime-like `format`, the time taken as UTC; `None` where the text does
/// not match the format or names no valid time.
pub uninterp spec fn utc_timestamp(text: Seq<char>, format: Seq<char>) -> Option<i64>;

/// Calls `openssl::x509::X509::from_pem` on the bytes and, where that yields a
/// certificate, `X509Ref::not_after` and the `Display` impl of `Asn1TimeRef`.
/// Trusted: the text that comes back is the one named `pem_not_after`, and
/// nothing comes back exactly when no certificate could be parsed. Two kinds
/// of input are left out. Longer inputs than `MAX_PEM_LEN` make `from_pem`
/// panic. And `from_pem` hands OpenSSL no pass phrase callback, so that for a
/// block with an encryption header OpenSSL would ask the terminal for a pass
/// phrase: the call would wait, and its result would hang on what is typed.
#[verifier::external_body]
fn read_not_after(pem: &[u8]) -> (text: Option<String>)
    requires
        pem@.len() <= MAX_PEM_LEN,
        !holds_encryption_header(pem@),
    ensures
        match text {
            Some(t) => pem_not_after(pem@) == Some(t@),
            None => pem_not_after(pem@) is None,
        },
{
    match openssl::x509::X509::from_pem(pem) {
        Ok(certificate) => Some(certificate.not_after().to_string()),
        Err(_) => None,
    }
}

/// Calls `chrono::TimeZone::datetime_from_str` for the zone `chrono::Utc`, and
/// `DateTime::timestamp` on what was parsed. Trusted: the seconds that come
/// back are those named `utc_timestamp`, and nothing comes back exactly when
/// `chrono` reports a parse error.
#[verifier::external_body]
#[allow(deprecated)]
fn parse_utc(text: &str, format: &str) -> (stamp: Option<i64>)
    ensures
        stamp == utc_timestamp(text@, format@),
{
    match chrono::TimeZone::datetime_from_str(&chrono::Utc, text, format) {
        Ok(time) => Some(time.timestamp()),
        Err(_) => None,
    }
}

/// Reads the system clock with `std::time::SystemTime::now` and has `chrono`
/// turn it into a UTC time, by `DateTime::<Utc>::from`, whose seconds and
/// nanoseconds are handed out. Nothing is claimed of the result: every call
/// may answer differently. A clock that is set before 1970 gives a time
/// before the epoch.
#[verifier::external_body]
pub(crate) fn clock_now() -> (now: Instant) {
    let time = chrono::DateTime::<chrono::Utc>::from(std::time::SystemTime::now());
    Instant { secs: time.timestamp(), nanos: time.timestamp_subsec_nanos() }
}

/// When the certificate in a PEM file expires, in seconds of Unix time; or
/// why that cannot be said.
pub open spec fn not_after_of(pem: Seq<u8>) -> Result<i64, LifecycleError> {
    if pem.len() > MAX_PEM_LEN || holds_encryption_header(pem) {
        Err(LifecycleError::MalformedCertificate)
    } else {
        match pem_not_after(pem) {
            None => Err(LifecycleError::MalformedCertificate),
            Some(text) => match utc_timestamp(text, NOT_AFTER_FORMAT@) {
                None => Err(LifecycleError::MalformedCertificate),
                Some(stamp) => Ok(stamp),
            },
        }
    }
}

/// A certificate that expires at `not_after` (seconds of Unix time) is due
/// for renewal at `now`: less than `window` of its validity is left. One that
/// has expired is always due.
pub open spec fn renewal_due(not_after: i64, now: Instant, window: TimeSpan) -> bool {
    not_after * NANOS_PER_SEC - now.total_nanos() < window.total_nanos()
}

/// The verdict on a pair of files, from what was found of them: whether the
/// key file exists, and when the certificate expires (`None`: there is no
/// certificate file; `Some(Err(..))`: there is one, and it is unusable).
pub open spec fn verdict_of(
    key_present: bool,
    expiry: Option<Result<i64, LifecycleError>>,
    now: Instant,
    window: TimeSpan,
) -> Result<bool, LifecycleError> {
    if !key_present {
        Ok(true)
    } else {
        match expiry {
            None => Ok(true),
            Some(Err(e)) => Err(e),
            Some(Ok(not_after)) => Ok(renewal_due(not_after, now, window)),
        }
    }
}

/// The verdict on a pair of files: whether the key file exists, and the
/// bytes of the certificate file if it exists.
pub open spec fn renewal_verdict(
    key_present: bool,
    certificate: Option<Seq<u8>>,
    now: Instant,
    window: TimeSpan,
) -> Result<bool, LifecycleError> {
    if !key_present {
        Ok(true)
    } else {
        match certificate {
            None => Ok(true),
            Some(pem) => verdict_of(true, Some(not_after_of(pem)), now, window),
        }
    }
}

/// What a file that was read holds, if there is such a file.
pub open spec fn file_bytes(file: Option<&[u8]>) -> Option<Seq<u8>> {
    match file {
        Some(bytes) => Some(bytes@),
        None => None,
    }
}

/// Whether a certificate that expires at `not_after` is due for renewal at
/// `now`, given the renewal window.
pub fn is_renewal_due(not_after: i64, now: Instant, window: TimeSpan) -> (due: bool)
    ensures
        due == renewal_due(not_after, now, window),
{
    let expiry: i128 = not_after as i128;
    expiry * 1_000_000_000 - now.as_nanos() < window.as_nanos()
}

/// Decides on a pair of files from what was found of them. A missing file
/// asks for issuance whatever the window; an unusable certificate is an
/// error, never a silent yes or no.
pub fn decide_renewal(
    key_present: bool,
    expiry: Option<Result<i64, LifecycleError>>,
    now: Instant,
    window: TimeSpan,
) -> (verdict: Result<bool, LifecycleError>)
    ensures
        verdict == verdict_of(key_present, expiry, now, window),
        !key_present || expiry is None ==> verdict == Ok::<bool, LifecycleError>(true),
{
    if !key_present {
        return Ok(true);
    }
    match expiry {
        None => Ok(true),
        Some(Err(e)) => Err(e),
        Some(Ok(not_after)) => Ok(is_renewal_due(not_after, now, window)),
    }
}

/// Whether the bytes may hold a PEM encryption header.
pub fn has_encryption_header(pem: &[u8]) -> (found: bool)
    ensures
        found == holds_encryption_header(pem@),
{
    let len = pem.len();
    if len < PROC_TYPE_LEN {
        assert forall|k: int| !proc_type_at(pem@, k) by {}
        return false;
    }
    let last = len - PROC_TYPE_LEN;
    let mut i: usize = 0;
    while i <= last
        invariant
            len == pem@.len(),
            last == len - PROC_TYPE_LEN,
            i <= last + 1,
            forall|k: int| 0 <= k < i ==> !proc_type_at(pem@, k),
        decreases last + 1 - i,
    {
        if pem[i] == 0x50 && pem[i + 1] == 0x72 && pem[i + 2] == 0x6f && pem[i + 3] == 0x63 && pem[i
            + 4] == 0x2d && pem[i + 5] == 0x54 && pem[i + 6] == 0x79 && pem[i + 7] == 0x70 && pem[i
            + 8] == 0x65 {
            assert(proc_type_at(pem@, i as int));
            return true;
        }
        i = i + 1;
    }
    assert forall|k: int| !proc_type_at(pem@, k) by {}
    false
}

/// Reads the expiry of the certificate in a PEM file. A file that is too
/// long for the reader, or that may hold an encryption header, is refused
/// unread.
pub fn certificate_not_after(pem: &[u8]) -> (expiry: Result<i64, LifecycleError>)
    ensures
        expiry == not_after_of(pem@),
{
    if pem.len() > MAX_PEM_LEN || has_encryption_header(pem) {
        return Err(LifecycleError::MalformedCertificate);
    }
    match read_not_after(pem) {
        None => Err(LifecycleError::MalformedCertificate),
        Some(text) => match parse_utc(text.as_str(), NOT_AFTER_FORMAT) {
            None => Err(LifecycleError::MalformedCertificate),
            Some(stamp) => Ok(stamp),
        },
    }
}

/// Whether a certificate has to be issued, at `now`: yes when the key file
/// or the certificate file is missing; otherwise yes exactly when less than
/// `window` is left before the certificate expires. A certificate file that
/// cannot be parsed is reported as `MalformedCertificate`.
pub fn needs_renewal(
    key_present: bool,
    certificate: Option<&[u8]>,
    now: Instant,
    window: TimeSpan,
) -> (verdict: Result<bool, LifecycleError>)
    ensures
        verdict == renewal_verdict(key_present, file_bytes(certificate), now, window),
        !key_present || certificate is None ==> verdict == Ok::<bool, LifecycleError>(true),
{
    if !key_present {
        return Ok(true);
    }
    match certificate {
        None => Ok(true),
        Some(pem) => decide_renewal(true, Some(certificate_not_after(pem)), now, window),
    }
}

/// A missing file asks for issuance, for every renewal window and at every
/// time, whatever the other file holds.
pub proof fn missing_file_needs_renewal(
    key_present: bool,
    certificate: Option<Seq<u8>>,
    now: Instant,
    window: TimeSpan,
)
    requires
        !key_present || certificate is None,
    ensures
        renewal_verdict(key_present, certificate, now, window) == Ok::<bool, LifecycleError>(
            true,
        ),
{
}

/// The verdict grows with the window. With the files and the time fixed, a
/// window at least as long turns no yes into a no, and whether the verdict is
/// an error does not depend on the window at all.
pub proof fn wider_window_keeps_renewal(
    key_present: bool,
    certificate: Option<Seq<u8>>,
    now: Instant,
    narrow: TimeSpan,
    wide: TimeSpan,
)
    requires
        narrow.total_nanos() <= wide.total_nanos(),
    ensures
        renewal_verdict(key_present, certificate, now, narrow) == Ok::<bool, LifecycleError>(true)
            ==> renewal_verdict(key_present, certificate, now, wide) == Ok::<
            bool,
            LifecycleError,
        >(true),
        renewal_verdict(key_present, certificate, now, wide) == Ok::<bool, LifecycleError>(false)
            ==> renewal_verdict(key_present, certificate, now, narrow) == Ok::<
            bool,
            LifecycleError,
        >(false),
        renewal_verdict(key_present, certificate, now, narrow) is Err ==> renewal_verdict(
            key_present,
            certificate,
            now,
            wide,
        ) == renewal_verdict(key_present, certificate, now, narrow),
        renewal_verdict(key_present, certificate, now, wide) is Err ==> renewal_verdict(
            key_present,
            certificate,
            now,
            narrow,
        ) is Err,
{
}

/// The same for a certificate whose expiry is known: if it is due under a
/// window, it is due under every window at least as long.
pub proof fn renewal_due_is_monotonic(not_after: i64, now: Instant, narrow: TimeSpan, wide: TimeSpan)
    requires
        narrow.total_nanos() <= wide.total_nanos(),
        renewal_due(not_after, now, narrow),
    ensures
        renewal_due(not_after, now, wide),
{
}

} // verus!
