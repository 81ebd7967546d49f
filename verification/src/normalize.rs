//! The pre-save normalizer: the hook the persistence layer runs on every
//! pending write, deriving bookkeeping fields before the row is committed.
//!
//! On an insert it issues a fresh secret token (overwriting anything the
//! caller staged) and stamps both timestamps with the same instant. On an
//! update it refreshes `updated_at` unless the caller explicitly staged a
//! value for it, and touches nothing else.
use vstd::prelude::*;

use crate::model::{Staged, StagedSpec, StagedUserAuth, StagedUserAuthSpec};

verus! {

/// The only error the normalizer can raise: the unique-token source yielded
/// nothing usable, so the write must be aborted before it reaches storage.
#[derive(Debug, Clone, Copy, PartialEq, Eq, Structural)]
pub enum NormalizeError {
    NormalizationFailed,
}

/// What the normalizer does to a staged credential row, stated as a function
/// of the pending fields, the insert/update flag, the fresh token offered by
/// the token source (`None` when the source is unavailable), and the current
/// wall-clock instant.
pub open spec fn spec_normalize(
    s: StagedUserAuthSpec,
    is_insert: bool,
    token: Option<Seq<char>>,
    now: i64,
) -> Result<StagedUserAuthSpec, NormalizeError> {
    if is_insert {
        match token {
            Some(t) => if t.len() > 0 {
                Ok(StagedUserAuthSpec {
                    secret_token: StagedSpec::Changed(t),
                    created_at: StagedSpec::Changed(now),
                    updated_at: StagedSpec::Changed(now),
                    ..s
                })
            } else {
                Err(NormalizeError::NormalizationFailed)
            },
            None => Err(NormalizeError::NormalizationFailed),
        }
    } else if !(s.updated_at is Changed) {
        Ok(StagedUserAuthSpec { updated_at: StagedSpec::Changed(now), ..s })
    } else {
        Ok(s)
    }
}

/// View of an optional freshly drawn token.
pub open spec fn token_view(token: Option<String>) -> Option<Seq<char>> {
    match token {
        Some(t) => Some(t@),
        None => None,
    }
}

/// View of a normalizer result.
pub open spec fn result_view(r: Result<StagedUserAuth, NormalizeError>) -> Result<
    StagedUserAuthSpec,
    NormalizeError,
> {
    match r {
        Ok(s) => Ok(s@),
        Err(e) => Err(e),
    }
}

/// The normalizer with its two inputs of the outside world — the fresh token
/// and the clock reading — handed in as plain values, so that its behaviour
/// is pinned down for every value they can take.
pub fn apply_pre_save(
    staged: StagedUserAuth,
    is_insert: bool,
    fresh_token: Option<String>,
    now: i64,
) -> (r: Result<StagedUserAuth, NormalizeError>)
    ensures
        result_view(r) == spec_normalize(staged@, is_insert, token_view(fresh_token), now),
{
    let mut staged = staged;
    if is_insert {
        match fresh_token {
            Some(t) => {
                if t.as_str().is_empty() {
                    Err(NormalizeError::NormalizationFailed)
                } else {
                    staged.secret_token = Staged::Changed(t);
                    staged.created_at = Staged::Changed(now);
                    staged.updated_at = Staged::Changed(now);
                    Ok(staged)
                }
            },
            None => Err(NormalizeError::NormalizationFailed),
        }
    } else if !staged.updated_at.is_changed() {
        staged.updated_at = Staged::Changed(now);
        Ok(staged)
    } else {
        Ok(staged)
    }
}

/// Relies on getrandom's `fill` for 16 bytes of operating-system randomness,
/// which reports an unavailable entropy source as an error instead of
/// aborting, and on uuid's `Builder::from_random_bytes` with its `Display`
/// form: 36 hyphenated, lowercase hexadecimal characters. The bytes are
/// random, so nothing is assumed of the value beyond its shape.
#[verifier::external_body]
fn random_uuid_string() -> (r: Option<String>)
    ensures
        r is Some ==> r->0@.len() == 36,
{
    let mut bytes = [0u8; 16];
    match getrandom::fill(&mut bytes) {
        Ok(()) => Some(uuid::Builder::from_random_bytes(bytes).into_uuid().to_string()),
        Err(_) => None,
    }
}

/// Relies on `chrono::Utc::now`: the current wall-clock time, reduced to
/// microseconds since the epoch. Nothing is assumed of the value it reports.
#[verifier::external_body]
fn now_micros() -> i64 {
    chrono::Utc::now().timestamp_micros()
}

/// Issues a fresh secret token: the fixed human-readable prefix followed by
/// a random 128-bit identifier in its textual form. Yields nothing when the
/// randomness source is unavailable; the caller turns that into
/// `NormalizationFailed` rather than substituting a predictable value.
pub fn generate_token() -> (r: Option<String>)
    ensures
        r is Some ==> r->0@.len() == 39 && r->0@.subrange(0, 3) == "lo-"@,
{
    match random_uuid_string() {
        Some(u) => {
            let mut t = String::from_str("lo-");
            t.append(u.as_str());
            proof {
                reveal_strlit("lo-");
                assert(t@.subrange(0, 3) =~= "lo-"@);
            }
            Some(t)
        },
        None => None,
    }
}

/// The pre-save hook as the persistence layer calls it: draws a fresh token
/// and reads the clock, then normalizes the staged row. An update always
/// succeeds; an insert fails with `NormalizationFailed` exactly when the
/// token source yields nothing, and the write is aborted before it reaches
/// storage. Which token and which instant were drawn is existentially
/// quantified, since both are outside inputs.
pub fn normalize(staged: StagedUserAuth, is_insert: bool) -> (r: Result<
    StagedUserAuth,
    NormalizeError,
>)
    ensures
        !is_insert ==> r is Ok,
        r is Err ==> is_insert && r->Err_0 == NormalizeError::NormalizationFailed,
        exists|t: Option<Seq<char>>, n: i64|
            {
                &&& (t is Some ==> t->0.len() == 39 && t->0.subrange(0, 3) == "lo-"@)
                &&& result_view(r) == spec_normalize(staged@, is_insert, t, n)
            },
{
    let ghost pre = staged@;
    let token = generate_token();
    let ghost tok = token_view(token);
    let now = now_micros();
    let r = apply_pre_save(staged, is_insert, token, now);
    proof {
        assert((tok is Some ==> tok->0.len() == 39 && tok->0.subrange(0, 3) == "lo-"@)
            && result_view(r) == spec_normalize(pre, is_insert, tok, now));
    }
    r
}

/// Law: every insert that succeeds carries an explicitly staged, non-empty
/// secret token, and an insert succeeds exactly when the token source
/// yielded a non-empty token.
pub proof fn lemma_insert_token_nonempty(
    s: StagedUserAuthSpec,
    token: Option<Seq<char>>,
    now: i64,
)
    ensures
        spec_normalize(s, true, token, now) is Ok <==> (token is Some && token->0.len() > 0),
        spec_normalize(s, true, token, now) is Ok ==> {
            let out = spec_normalize(s, true, token, now)->Ok_0;
            &&& out.secret_token is Changed
            &&& out.secret_token->Changed_0.len() > 0
        },
{
}

/// Law: on insert, whatever secret token the caller staged is discarded —
/// two staged rows that differ only in their staged token normalize to the
/// same row.
pub proof fn lemma_insert_discards_staged_token(
    a: StagedUserAuthSpec,
    b: StagedUserAuthSpec,
    token: Option<Seq<char>>,
    now: i64,
)
    requires
        a.id == b.id,
        a.email == b.email,
        a.created_at == b.created_at,
        a.updated_at == b.updated_at,
        a.email_verified_at == b.email_verified_at,
    ensures
        spec_normalize(a, true, token, now) == spec_normalize(b, true, token, now),
{
    if token is Some && token->0.len() > 0 {
        assert(spec_normalize(a, true, token, now)->Ok_0 =~= spec_normalize(
            b,
            true,
            token,
            now,
        )->Ok_0);
    }
}

/// Law: on an update where the caller did not explicitly stage `updated_at`,
/// the hook advances it — whenever the clock reads later than the loaded
/// value, the staged `updated_at` after the hook is strictly greater than it
/// was before.
pub proof fn lemma_update_advances_updated_at(
    s: StagedUserAuthSpec,
    token: Option<Seq<char>>,
    now: i64,
)
    requires
        s.updated_at is Unchanged,
        now > s.updated_at->Unchanged_0,
    ensures
        spec_normalize(s, false, token, now) is Ok,
        spec_normalize(s, false, token, now)->Ok_0.updated_at is Changed,
        spec_normalize(s, false, token, now)->Ok_0.updated_at->Changed_0
            > s.updated_at->Unchanged_0,
{
}

/// Law: on an update where the caller explicitly staged `updated_at`, the
/// hook leaves the whole row exactly as staged.
pub proof fn lemma_update_keeps_explicit_updated_at(
    s: StagedUserAuthSpec,
    token: Option<Seq<char>>,
    now: i64,
)
    requires
        s.updated_at is Changed,
    ensures
        spec_normalize(s, false, token, now) == Ok::<StagedUserAuthSpec, NormalizeError>(s),
{
}

/// Law: no update alters `created_at` — once set at insert, the hook never
/// touches it again.
pub proof fn lemma_update_preserves_created_at(
    s: StagedUserAuthSpec,
    token: Option<Seq<char>>,
    now: i64,
)
    ensures
        spec_normalize(s, false, token, now) is Ok,
        spec_normalize(s, false, token, now)->Ok_0.created_at == s.created_at,
{
}

} // verus!
