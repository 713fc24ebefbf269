//! The responder's side of the HTTP-01 challenge: which file answers a
//! request for `/.well-known/acme-challenge/{token}`, and what is sent back.

use vstd::prelude::*;
use crate::engine::LetsEncrypt;
use crate::paths::{
    is_absolute, is_file_name, is_one_name, join, path_is_absolute, path_join,
};

verus! {

/// The route that the responder serves.
pub const CHALLENGE_ROUTE: &'static str = "/.well-known/acme-challenge/{token}";

/// The status of an answer that carries the proof.
pub const STATUS_OK: u16 = 200;

/// The status of an answer to a request that no proof file matches.
pub const STATUS_NOT_FOUND: u16 = 404;

/// What the responder sends back.
#[derive(Debug, PartialEq, Eq)]
pub enum ChallengeResponse {
    /// The bytes of the proof file.
    Found(Vec<u8>),
    /// There is no such proof.
    NotFound,
}

/// What a token may be: the name of one file. It is not empty, it is
/// neither `.` nor `..`, it holds no slash, the platform reads it as one
/// file name and not as an absolute path. On a platform with further
/// separators or with drive prefixes, std refuses those too; where a
/// backslash or a colon is an ordinary character of a file name, a token may
/// hold it.
pub open spec fn token_ok(token: Seq<char>) -> bool {
    &&& token.len() > 0
    &&& !(token.len() == 1 && token[0] == '.')
    &&& !(token.len() == 2 && token[0] == '.' && token[1] == '.')
    &&& !token.contains('/')
    &&& is_file_name(token)
    &&& !path_is_absolute(token)
}

/// The file that holds the proof for `token`: the file of that name in
/// `.well-known/acme-challenge` below the nonce directory. A request whose
/// token is not the name of one file names no file.
pub open spec fn challenge_file(nonce_directory: Seq<char>, token: Seq<char>) -> Option<
    Seq<char>,
> {
    if token_ok(token) {
        Some(
            path_join(
                path_join(path_join(nonce_directory, ".well-known"@), "acme-challenge"@),
                token,
            ),
        )
    } else {
        None
    }
}

/// The answer to a request for `token`, where `file` is what the proof file
/// holds (`None`: there is no such file). A token that is not the name of one
/// file gets no body, whatever was found.
pub open spec fn response_to(token: Seq<char>, file: Option<Seq<u8>>) -> Option<Seq<u8>> {
    if token_ok(token) {
        file
    } else {
        None
    }
}

/// Whether `token` may be looked up: whether it is the name of one file.
pub fn is_valid_token(token: &str) -> (ok: bool)
    ensures
        ok == token_ok(token@),
{
    let len = token.unicode_len();
    if len == 0 {
        return false;
    }
    if len == 1 && token.get_char(0) == '.' {
        return false;
    }
    if len == 2 && token.get_char(0) == '.' && token.get_char(1) == '.' {
        return false;
    }
    let mut i: usize = 0;
    while i < len
        invariant
            i <= len,
            len == token@.len(),
            forall|k: int| 0 <= k < i ==> token@[k] != '/',
        decreases len - i,
    {
        if token.get_char(i) == '/' {
            return false;
        }
        i = i + 1;
    }
    is_one_name(token) && !is_absolute(token)
}

impl ChallengeResponse {
    /// The body of the answer, if it has one.
    pub open spec fn body(self) -> Option<Seq<u8>> {
        match self {
            ChallengeResponse::Found(bytes) => Some(bytes@),
            ChallengeResponse::NotFound => None,
        }
    }

    /// The HTTP status of the answer.
    pub fn status(&self) -> (code: u16)
        ensures
            code == if self.body() is Some {
                STATUS_OK
            } else {
                STATUS_NOT_FOUND
            },
    {
        match self {
            ChallengeResponse::Found(_) => STATUS_OK,
            ChallengeResponse::NotFound => STATUS_NOT_FOUND,
        }
    }
}

/// Answers a request for `token`, given what was found at its challenge
/// path: the file's bytes if there is a file, and not-found if there is none
/// or the token is not the name of one file.
pub fn respond(token: &str, file: Option<Vec<u8>>) -> (response: ChallengeResponse)
    ensures
        response.body() == response_to(
            token@,
            match file {
                Some(bytes) => Some(bytes@),
                None => None,
            },
        ),
{
    if !is_valid_token(token) {
        return ChallengeResponse::NotFound;
    }
    match file {
        Some(bytes) => ChallengeResponse::Found(bytes),
        None => ChallengeResponse::NotFound,
    }
}

impl LetsEncrypt {
    /// The file in which the responder looks for the proof that a request
    /// asks for: `.well-known/acme-challenge/<token>` below the nonce
    /// directory. A request whose token is empty, is `.` or `..`, or holds a
    /// path separator or a colon has no file.
    pub fn challenge_path(&self, token: &str) -> (path: Option<String>)
        ensures
            path.deep_view() == challenge_file(self@.nonce_directory, token@),
    {
        if !is_valid_token(token) {
            return None;
        }
        let well_known = join(self.nonce_dir().as_str(), ".well-known");
        let challenges = join(well_known.as_str(), "acme-challenge");
        Some(join(challenges.as_str(), token))
    }
}

/// No request reaches outside the challenge directory. A token has a
/// challenge file, and can be answered with a body, only if it is the name of
/// one file: an empty token, `.`, `..`, a token with a slash anywhere in it,
/// a token that the platform does not read as one file name and a token that
/// is an absolute path have no file and get no body, whatever lies on disk.
/// Every other token is answered with what its file holds.
pub proof fn only_file_names_are_answered(
    nonce_directory: Seq<char>,
    token: Seq<char>,
    file: Option<Seq<u8>>,
)
    ensures
        challenge_file(nonce_directory, token) is Some <==> token_ok(token),
        response_to(token, file) is Some ==> token_ok(token) && response_to(token, file) == file,
        token_ok(token) ==> response_to(token, file) == file,
        token.len() == 0 ==> !token_ok(token),
        token == seq!['.'] || token == seq!['.', '.'] ==> !token_ok(token),
        token.contains('/') ==> !token_ok(token),
        !is_file_name(token) ==> !token_ok(token),
        path_is_absolute(token) ==> !token_ok(token),
{
}

} // verus!
