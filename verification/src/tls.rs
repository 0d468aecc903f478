//! The transport security that a database connection string asks for.
//!
//! The `sslmode` parameter of the connection string's query decides two things
//! independently of each other: whether the server's certificate is verified, and
//! whether the transport is encrypted at all. A connection string without the
//! parameter is read as `sslmode=require`, which encrypts the transport but does
//! not verify the certificate.

use vstd::prelude::*;

use crate::text::same_text;

verus! {

/// How a connection to the database is secured.
#[derive(Clone, Copy, Debug, PartialEq, Eq, Structural)]
pub struct TlsDecision {
    /// Whether the server's certificate is verified.
    pub verify_certificate: bool,
    /// Whether the transport is encrypted.
    pub use_encrypted_transport: bool,
}

/// Why no decision could be made for a connection string.
#[derive(Clone, Copy, Debug, PartialEq, Eq, Structural)]
pub enum ResolveError {
    /// The connection string is not an absolute URL.
    MalformedUri,
}

/// `url::ParseError`, the reason why `url::Url::parse` rejects a string. Nothing
/// is read from it.
#[verifier::external_type_specification]
#[verifier::external_body]
pub struct ExParseError(url::ParseError);

/// The name and value pairs that `url::Url::query_pairs` yields, in its order,
/// for the URL that `url::Url::parse` makes of `uri`, or `None` where
/// `url::Url::parse` rejects `uri`.
pub uninterp spec fn url_query_pairs(uri: Seq<char>) -> Option<Seq<(Seq<char>, Seq<char>)>>;

/// What `str::to_lowercase` returns for `text`.
pub uninterp spec fn lowercase_of(text: Seq<char>) -> Seq<char>;

/// Calls `url::Url::parse` on `uri` and collects what `url::Url::query_pairs`
/// yields for the parsed URL. Trusted: the outcome depends on the characters of
/// `uri` alone, so it is given the name `url_query_pairs`; nothing more is claimed
/// of it.
#[verifier::external_body]
fn query_pairs(uri: &str) -> (parsed: Result<Vec<(String, String)>, url::ParseError>)
    ensures
        match parsed {
            Ok(pairs) => url_query_pairs(uri@) == Some(pairs.deep_view()),
            Err(_) => url_query_pairs(uri@) is None,
        },
{
    match url::Url::parse(uri) {
        Ok(url) => Ok(url.query_pairs().into_owned().collect()),
        Err(error) => Err(error),
    }
}

/// `str::to_lowercase` of the standard library. Trusted: the result depends on
/// the characters of `text` alone, so it is given the name `lowercase_of`; nothing
/// more is claimed of it.
pub assume_specification[ str::to_lowercase ](text: &str) -> (lowered: String)
    ensures
        lowered@ == lowercase_of(text@),
;

/// The value of the last pair in `pairs` whose name is `name`, if there is one.
pub open spec fn last_value(pairs: Seq<(Seq<char>, Seq<char>)>, name: Seq<char>) -> Option<
    Seq<char>,
>
    decreases pairs.len(),
{
    if pairs.len() == 0 {
        None
    } else if pairs.last().0 == name {
        Some(pairs.last().1)
    } else {
        last_value(pairs.drop_last(), name)
    }
}

/// Whether a lower-case `sslmode` value switches certificate verification off.
pub open spec fn skips_verification(mode: Seq<char>) -> bool {
    mode == "disable"@ || mode == "require"@ || mode == "prefer"@ || mode == "allow"@
}

/// Whether a lower-case `sslmode` value asks for an encrypted transport.
pub open spec fn wants_encryption(mode: Seq<char>) -> bool {
    mode == "require"@ || mode == "verify-ca"@ || mode == "verify-full"@
}

/// The decision for a lower-case `sslmode` value.
pub open spec fn decision_for(mode: Seq<char>) -> TlsDecision {
    TlsDecision {
        verify_certificate: !skips_verification(mode),
        use_encrypted_transport: wants_encryption(mode),
    }
}

/// The decision for the pairs of a connection string's query: that of the last
/// `sslmode` value in lower case, or that of `require` where there is none.
pub open spec fn decision_for_pairs(pairs: Seq<(Seq<char>, Seq<char>)>) -> TlsDecision {
    match last_value(pairs, "sslmode"@) {
        Some(mode) => decision_for(lowercase_of(mode)),
        None => decision_for("require"@),
    }
}

/// The decision for a connection string, or the reason why there is none.
pub open spec fn resolve_spec(uri: Seq<char>) -> Result<TlsDecision, ResolveError> {
    match url_query_pairs(uri) {
        Some(pairs) => Ok(decision_for_pairs(pairs)),
        None => Err(ResolveError::MalformedUri),
    }
}

/// Finds the value of the last pair in `pairs` whose name is `name`.
pub fn find_last<'a>(pairs: &'a Vec<(String, String)>, name: &str) -> (found: Option<&'a String>)
    ensures
        found.deep_view() == last_value(pairs.deep_view(), name@),
{
    let mut left: usize = pairs.len();
    assert(pairs.deep_view().take(left as int) =~= pairs.deep_view());
    while left > 0
        invariant
            left <= pairs.len(),
            last_value(pairs.deep_view(), name@) == last_value(
                pairs.deep_view().take(left as int),
                name@,
            ),
        decreases left,
    {
        let ghost before = pairs.deep_view().take(left as int);
        left = left - 1;
        assert(before.drop_last() =~= pairs.deep_view().take(left as int));
        assert(before.last() == pairs.deep_view()[left as int]);
        if same_text(pairs[left].0.as_str(), name) {
            return Some(&pairs[left].1);
        }
    }
    assert(pairs.deep_view().take(0).len() == 0);
    None
}

/// Decides how to secure a connection from an `sslmode` value that is already in
/// lower case.
pub fn decide(mode: &str) -> (decision: TlsDecision)
    ensures
        decision == decision_for(mode@),
{
    let require = same_text(mode, "require");
    let skips = require || same_text(mode, "disable") || same_text(mode, "prefer") || same_text(
        mode,
        "allow",
    );
    let encrypts = require || same_text(mode, "verify-ca") || same_text(mode, "verify-full");
    TlsDecision { verify_certificate: !skips, use_encrypted_transport: encrypts }
}

/// Decides how to secure a connection from the pairs of a connection string's
/// query.
pub fn decide_for_pairs(pairs: &Vec<(String, String)>) -> (decision: TlsDecision)
    ensures
        decision == decision_for_pairs(pairs.deep_view()),
{
    match find_last(pairs, "sslmode") {
        Some(mode) => {
            let lowered = mode.as_str().to_lowercase();
            decide(lowered.as_str())
        },
        None => decide("require"),
    }
}

/// Decides how to secure a connection to the database at `uri`.
///
/// Fails with `MalformedUri` exactly where `uri` is not an absolute URL.
pub fn resolve(uri: &str) -> (resolved: Result<TlsDecision, ResolveError>)
    ensures
        resolved == resolve_spec(uri@),
{
    match query_pairs(uri) {
        Ok(pairs) => Ok(decide_for_pairs(&pairs)),
        Err(_) => Err(ResolveError::MalformedUri),
    }
}

/// A name has no value exactly where no pair carries it.
pub proof fn lemma_last_value_none_iff_absent(pairs: Seq<(Seq<char>, Seq<char>)>, name: Seq<char>)
    ensures
        last_value(pairs, name) is None <==> forall|i: int|
            0 <= i < pairs.len() ==> (#[trigger] pairs[i]).0 != name,
    decreases pairs.len(),
{
    if pairs.len() > 0 {
        let shorter = pairs.drop_last();
        lemma_last_value_none_iff_absent(shorter, name);
        if pairs.last().0 != name {
            assert forall|i: int| 0 <= i < shorter.len() implies (#[trigger] shorter[i]) == pairs[i] by {}
            if last_value(shorter, name) is None {
                assert forall|i: int| 0 <= i < pairs.len() implies (#[trigger] pairs[i]).0
                    != name by {
                    if i < shorter.len() {
                        assert(shorter[i] == pairs[i]);
                    }
                }
            } else {
                let at = choose|i: int| 0 <= i < shorter.len() && (#[trigger] shorter[i]).0 == name;
                assert(pairs[at].0 == name);
            }
        } else {
            assert(pairs[pairs.len() - 1].0 == name);
        }
    }
}

/// Where several pairs carry a name, the value of the last of them counts.
pub proof fn lemma_last_value_is_of_last_pair(
    pairs: Seq<(Seq<char>, Seq<char>)>,
    name: Seq<char>,
    at: int,
)
    requires
        0 <= at < pairs.len(),
        pairs[at].0 == name,
        forall|j: int| at < j < pairs.len() ==> (#[trigger] pairs[j]).0 != name,
    ensures
        last_value(pairs, name) == Some(pairs[at].1),
    decreases pairs.len(),
{
    if at < pairs.len() - 1 {
        let shorter = pairs.drop_last();
        assert(pairs[pairs.len() - 1].0 != name);
        assert(shorter[at] == pairs[at]);
        assert forall|j: int| at < j < shorter.len() implies (#[trigger] shorter[j]).0 != name by {
            assert(shorter[j] == pairs[j]);
        }
        lemma_last_value_is_of_last_pair(shorter, name, at);
    }
}

/// The decision for every lower-case `sslmode` value. `disable`, `prefer` and
/// `allow` give a plain transport without verification; `require` encrypts
/// without verifying; `verify-ca` and `verify-full` encrypt and verify; every
/// other value verifies, on a plain transport.
pub proof fn lemma_decision_table(mode: Seq<char>)
    ensures
        decision_for(mode) == if mode == "disable"@ || mode == "prefer"@ || mode == "allow"@ {
            TlsDecision { verify_certificate: false, use_encrypted_transport: false }
        } else if mode == "require"@ {
            TlsDecision { verify_certificate: false, use_encrypted_transport: true }
        } else if mode == "verify-ca"@ || mode == "verify-full"@ {
            TlsDecision { verify_certificate: true, use_encrypted_transport: true }
        } else {
            TlsDecision { verify_certificate: true, use_encrypted_transport: false }
        },
{
    reveal_strlit("disable");
    reveal_strlit("require");
    reveal_strlit("prefer");
    reveal_strlit("allow");
    reveal_strlit("verify-ca");
    reveal_strlit("verify-full");
    // The six words differ in length, but for two that differ in their first letter.
    assert("prefer"@.len() == 6 && "allow"@.len() == 5);
    assert("verify-ca"@.len() == 9 && "verify-full"@.len() == 11);
    assert("disable"@.len() == 7 && "require"@.len() == 7);
    assert("disable"@[0] != "require"@[0]);
}

/// A connection string whose query holds no `sslmode` is resolved as one that
/// says `sslmode=require`: the transport is encrypted and the certificate is not
/// verified.
pub proof fn lemma_missing_sslmode_means_require(uri: Seq<char>)
    requires
        url_query_pairs(uri) is Some,
        forall|i: int|
            0 <= i < url_query_pairs(uri)->0.len() ==> (#[trigger] url_query_pairs(uri)->0[i]).0
                != "sslmode"@,
    ensures
        resolve_spec(uri) == Ok::<_, ResolveError>(decision_for("require"@)),
        resolve_spec(uri) == Ok::<_, ResolveError>(
            TlsDecision { verify_certificate: false, use_encrypted_transport: true },
        ),
{
    lemma_last_value_none_iff_absent(url_query_pairs(uri)->0, "sslmode"@);
    lemma_decision_table("require"@);
}

} // verus!
