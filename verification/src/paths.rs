//! Where a job's key file and certificate file lie.
//!
//! A path is held as text. Whether a path is absolute, and what two paths
//! joined give, is asked of `std::path`, for the platform that the library is
//! built for.

use vstd::prelude::*;
use vstd::string::StringExecFns;

verus! {

/// Whether `std::path::Path::is_absolute` holds of the path with this text.
pub uninterp spec fn path_is_absolute(path: Seq<char>) -> bool;

/// The text of the path that `std::path::Path::join` makes of `base` and
/// `tail`.
pub uninterp spec fn path_join(base: Seq<char>, tail: Seq<char>) -> Seq<char>;

/// One component of a path, as `std::path::Component` tells them apart.
#[derive(Debug, PartialEq, Eq)]
pub enum PathPart {
    /// A prefix, such as a drive letter.
    Prefix,
    /// The root directory.
    RootDir,
    /// The current directory, `.`.
    CurDir,
    /// The parent directory, `..`.
    ParentDir,
    /// The name of a file or a directory.
    Normal(String),
}

/// What a `PathPart` stands for.
pub enum PathPartView {
    Prefix,
    RootDir,
    CurDir,
    ParentDir,
    Normal(Seq<char>),
}

impl View for PathPart {
    type V = PathPartView;

    open spec fn view(&self) -> PathPartView {
        match self {
            PathPart::Prefix => PathPartView::Prefix,
            PathPart::RootDir => PathPartView::RootDir,
            PathPart::CurDir => PathPartView::CurDir,
            PathPart::ParentDir => PathPartView::ParentDir,
            PathPart::Normal(name) => PathPartView::Normal(name@),
        }
    }
}

impl DeepView for PathPart {
    type V = PathPartView;

    open spec fn deep_view(&self) -> PathPartView {
        self@
    }
}

/// The components that `std::path::Path::components` finds in the path with
/// this text, in their order.
pub uninterp spec fn path_parts(path: Seq<char>) -> Seq<PathPartView>;

/// Calls `std::path::Path::components` and hands out each component by its
/// kind, a name with its text. Trusted: the components are those named
/// `path_parts`.
#[verifier::external_body]
pub(crate) fn parts(path: &str) -> (parts: Vec<PathPart>)
    ensures
        parts.deep_view() == path_parts(path@),
{
    std::path::Path::new(path).components().map(|part| match part {
        std::path::Component::Prefix(_) => PathPart::Prefix,
        std::path::Component::RootDir => PathPart::RootDir,
        std::path::Component::CurDir => PathPart::CurDir,
        std::path::Component::ParentDir => PathPart::ParentDir,
        std::path::Component::Normal(name) => PathPart::Normal(name.to_string_lossy().into_owned()),
    }).collect()
}

/// The path with this text is the name of one file, as the platform reads
/// paths: it has one component, which is a name, and that name is the whole
/// text.
pub open spec fn is_file_name(path: Seq<char>) -> bool {
    path_parts(path) == seq![PathPartView::Normal(path)]
}

/// Whether `path` is the name of one file, as the platform reads paths.
pub fn is_one_name(path: &str) -> (one: bool)
    ensures
        one == is_file_name(path@),
{
    let found = parts(path);
    assert(found.deep_view().len() == found@.len());
    assert(seq![PathPartView::Normal(path@)].len() == 1);
    if found.len() != 1 {
        return false;
    }
    assert(found.deep_view()[0] == found@[0]@);
    assert(seq![PathPartView::Normal(path@)][0] == PathPartView::Normal(path@));
    match &found[0] {
        PathPart::Normal(name) => {
            let whole = String::from_str(path);
            let same = *name == whole;
            assert(same ==> found.deep_view() =~= seq![PathPartView::Normal(path@)]);
            same
        },
        _ => false,
    }
}

/// Calls `std::path::Path::is_absolute`. Trusted: the answer is the one named
/// `path_is_absolute`.
#[verifier::external_body]
pub(crate) fn is_absolute(path: &str) -> (absolute: bool)
    ensures
        absolute == path_is_absolute(path@),
{
    std::path::Path::new(path).is_absolute()
}

/// Calls `std::path::Path::join`. Trusted: the text of the result is the one
/// named `path_join`, and an absolute `tail` replaces `base` altogether, as
/// std documents. Both parts are text, so the joined path is text too.
#[verifier::external_body]
pub(crate) fn join(base: &str, tail: &str) -> (joined: String)
    ensures
        joined@ == path_join(base@, tail@),
        path_is_absolute(tail@) ==> joined@ == tail@,
{
    std::path::Path::new(base).join(tail).to_string_lossy().into_owned()
}

/// The name of the file that holds a job's key (`stem` "key") or certificate
/// (`stem` "cert") when the job names none: the domain, an underscore, the
/// stem, and the ending `.pem`.
pub open spec fn default_file_name(domain: Seq<char>, stem: Seq<char>) -> Seq<char> {
    domain + "_"@ + stem + ".pem"@
}

/// The path of a job's file. Without an explicit path it is the default file
/// name of the job's first domain, inside the SSL directory. An explicit path
/// stands as it is when it is absolute, and inside the SSL directory when it
/// is relative.
pub open spec fn resolved_path(
    explicit: Option<Seq<char>>,
    stem: Seq<char>,
    ssl_directory: Seq<char>,
    domains: Seq<Seq<char>>,
) -> Seq<char> {
    match explicit {
        None => path_join(ssl_directory, default_file_name(domains[0], stem)),
        Some(path) => if path_is_absolute(path) {
            path
        } else {
            path_join(ssl_directory, path)
        },
    }
}

/// The default file name for `domain` and `stem`.
pub fn default_name(domain: &str, stem: &str) -> (name: String)
    ensures
        name@ == default_file_name(domain@, stem@),
{
    let mut name = String::from_str(domain);
    name.append("_");
    name.append(stem);
    name.append(".pem");
    name
}

/// Resolves the path of a job's file against the SSL directory. The job must
/// have a domain if it names no path.
pub fn resolve_path(
    explicit: &Option<String>,
    stem: &str,
    ssl_directory: &str,
    domains: &Vec<String>,
) -> (path: String)
    requires
        explicit is None ==> domains.len() > 0,
    ensures
        path@ == resolved_path(explicit.deep_view(), stem@, ssl_directory@, domains.deep_view()),
{
    match explicit {
        None => {
            let name = default_name(domains[0].as_str(), stem);
            join(ssl_directory, name.as_str())
        },
        Some(path) => {
            if is_absolute(path.as_str()) {
                path.clone()
            } else {
                join(ssl_directory, path.as_str())
            }
        },
    }
}

/// Replaces a job's path by its resolved form.
pub fn update_path(
    pathp: &mut Option<String>,
    stem: &str,
    ssl_directory: &str,
    domains: &Vec<String>,
)
    requires
        *old(pathp) is None ==> domains.len() > 0,
    ensures
        final(pathp).deep_view() == Some(
            resolved_path(old(pathp).deep_view(), stem@, ssl_directory@, domains.deep_view()),
        ),
{
    let resolved = resolve_path(pathp, stem, ssl_directory, domains);
    *pathp = Some(resolved);
}

/// An explicit relative path is joined onto the SSL directory. An explicit
/// absolute path is the result as it stands, whatever the stem, the SSL
/// directory and the domains are.
pub proof fn explicit_path_resolution(
    path: Seq<char>,
    stem: Seq<char>,
    ssl_directory: Seq<char>,
    domains: Seq<Seq<char>>,
    other_stem: Seq<char>,
    other_directory: Seq<char>,
    other_domains: Seq<Seq<char>>,
)
    ensures
        !path_is_absolute(path) ==> resolved_path(Some(path), stem, ssl_directory, domains)
            == path_join(ssl_directory, path),
        path_is_absolute(path) ==> resolved_path(Some(path), stem, ssl_directory, domains)
            == path,
        path_is_absolute(path) ==> resolved_path(
            Some(path),
            other_stem,
            other_directory,
            other_domains,
        ) == resolved_path(Some(path), stem, ssl_directory, domains),
{
}

/// Without an explicit path, the key lies in the SSL directory under the
/// first domain's name followed by `_key.pem`, and the certificate under the
/// first domain's name followed by `_cert.pem`.
pub proof fn default_path_resolution(ssl_directory: Seq<char>, domains: Seq<Seq<char>>)
    ensures
        resolved_path(None, "key"@, ssl_directory, domains) == path_join(
            ssl_directory,
            domains[0] + "_key.pem"@,
        ),
        resolved_path(None, "cert"@, ssl_directory, domains) == path_join(
            ssl_directory,
            domains[0] + "_cert.pem"@,
        ),
{
    reveal_strlit("_");
    reveal_strlit(".pem");
    reveal_strlit("key");
    reveal_strlit("cert");
    reveal_strlit("_key.pem");
    reveal_strlit("_cert.pem");
    assert(domains[0] + "_"@ + "key"@ + ".pem"@ =~= domains[0] + "_key.pem"@);
    assert(domains[0] + "_"@ + "cert"@ + ".pem"@ =~= domains[0] + "_cert.pem"@);
}

/// Resolving is idempotent on absolute paths: a resolved path that is
/// absolute resolves to itself, whatever stem, SSL directory and domains the
/// second resolution is given.
pub proof fn resolution_is_idempotent(
    explicit: Option<Seq<char>>,
    stem: Seq<char>,
    ssl_directory: Seq<char>,
    domains: Seq<Seq<char>>,
    later_stem: Seq<char>,
    later_directory: Seq<char>,
    later_domains: Seq<Seq<char>>,
)
    ensures
        ({
            let once = resolved_path(explicit, stem, ssl_directory, domains);
            path_is_absolute(once) ==> resolved_path(
                Some(once),
                later_stem,
                later_directory,
                later_domains,
            ) == once
        }),
{
}

} // verus!
