use vstd::prelude::*;

use crate::authz::MemberRole;
use crate::error::AppError;
use crate::ids::{format_uuid, uuid_text};
use crate::text::hex_digit;

verus! {

/// Bytes of randomness in an invitation token (256 bits).
pub const TOKEN_BYTES: usize = 32;

/// Hours an invitation stays valid.
pub const EXPIRY_HOURS: i64 = 72;

/// Milliseconds in an hour.
pub const MILLIS_PER_HOUR: i64 = 3600000;

/// Lower-case hexadecimal text of a byte string, two digits per byte, as
/// `format!("{b:02x}")` writes each byte.
pub open spec fn hex_text(bytes: Seq<u8>) -> Seq<char>
    decreases bytes.len(),
{
    if bytes.len() == 0 {
        Seq::empty()
    } else {
        let b = bytes.last();
        hex_text(bytes.drop_last()) + seq![hex_digit((b / 16) as nat), hex_digit((b % 16) as nat)]
    }
}

/// Whether a character is a lower-case hexadecimal digit.
pub open spec fn is_hex_char(c: char) -> bool {
    ('0' <= c && c <= '9') || ('a' <= c && c <= 'f')
}

fn hex_str(v: u8) -> (s: &'static str)
    requires
        v < 16,
    ensures
        s@ == seq![hex_digit(v as nat)],
{
    proof {
        reveal_strlit("0");
        reveal_strlit("1");
        reveal_strlit("2");
        reveal_strlit("3");
        reveal_strlit("4");
        reveal_strlit("5");
        reveal_strlit("6");
        reveal_strlit("7");
        reveal_strlit("8");
        reveal_strlit("9");
        reveal_strlit("a");
        reveal_strlit("b");
        reveal_strlit("c");
        reveal_strlit("d");
        reveal_strlit("e");
        reveal_strlit("f");
    }
    match v {
        0 => "0",
        1 => "1",
        2 => "2",
        3 => "3",
        4 => "4",
        5 => "5",
        6 => "6",
        7 => "7",
        8 => "8",
        9 => "9",
        10 => "a",
        11 => "b",
        12 => "c",
        13 => "d",
        14 => "e",
        _ => "f",
    }
}

/// Encodes bytes as lower-case hexadecimal text.
pub fn hex_encode(bytes: &Vec<u8>) -> (s: String)
    ensures
        s@ == hex_text(bytes@),
{
    let mut s = String::new();
    let mut i: usize = 0;
    while i < bytes.len()
        invariant
            0 <= i <= bytes@.len(),
            s@ == hex_text(bytes@.take(i as int)),
        decreases bytes@.len() - i,
    {
        let b = bytes[i];
        proof {
            assert(bytes@.take(i + 1).drop_last() =~= bytes@.take(i as int));
            assert(bytes@.take(i + 1).last() == b);
        }
        s = s.concat(hex_str(b / 16)).concat(hex_str(b % 16));
        assert(s@ =~= hex_text(bytes@.take(i + 1)));
        i = i + 1;
    }
    assert(bytes@.take(bytes@.len() as int) =~= bytes@);
    s
}

/// Hexadecimal text has two digits per byte, all of them lower-case hex digits.
pub proof fn lemma_hex_text_shape(bytes: Seq<u8>)
    ensures
        hex_text(bytes).len() == 2 * bytes.len(),
        forall|i: int| 0 <= i < hex_text(bytes).len() ==> is_hex_char(#[trigger] hex_text(bytes)[i]),
    decreases bytes.len(),
{
    if bytes.len() > 0 {
        lemma_hex_text_shape(bytes.drop_last());
        let b = bytes.last();
        let rest = hex_text(bytes.drop_last());
        let t = hex_text(bytes);
        assert forall|i: int| 0 <= i < t.len() implies is_hex_char(#[trigger] t[i]) by {
            if i < rest.len() {
                assert(t[i] == rest[i]);
            }
        }
    }
}

/// `n` bytes from the operating system's random source, drawn with
/// `rand::Rng::try_fill` on `rand::rngs::OsRng`; `None` where the source fails.
///
/// Trusted: a drawn value is `n` bytes long; nothing else is stated of it.
#[verifier::external_body]
fn os_random_bytes(n: usize) -> (r: Option<Vec<u8>>)
    ensures
        r is Some ==> r->0@.len() == n,
{
    let mut bytes = vec![0u8; n];
    match rand::Rng::try_fill(&mut rand::rngs::OsRng, &mut bytes[..]) {
        Ok(()) => Some(bytes),
        Err(_) => None,
    }
}

/// Message of a failed random source.
pub open spec fn rng_failed_text() -> Seq<char> {
    "random number generator failed"@
}

/// Generates a cryptographically random token: 32 bytes from the operating
/// system, written as 64 lower-case hexadecimal digits.
pub fn generate_token() -> (r: Result<String, AppError>)
    ensures
        r is Ok ==> exists|b: Seq<u8>| b.len() == TOKEN_BYTES && r->Ok_0@ == hex_text(b),
        r is Ok ==> r->Ok_0@.len() == 64,
        r is Ok ==> forall|i: int| 0 <= i < r->Ok_0@.len() ==> is_hex_char(#[trigger] r->Ok_0@[i]),
        r is Err ==> r->Err_0 is Internal && r->Err_0.text() == rng_failed_text(),
{
    match os_random_bytes(TOKEN_BYTES) {
        Some(bytes) => {
            let s = hex_encode(&bytes);
            proof {
                lemma_hex_text_shape(bytes@);
            }
            Ok(s)
        },
        None => Err(AppError::Internal(String::from_str("random number generator failed"))),
    }
}

/// The SHA-256 digest of a byte string, as `sha2::Sha256::digest` computes it.
pub uninterp spec fn sha256_digest(data: Seq<u8>) -> Seq<u8>;

/// Computes a SHA-256 digest with `sha2::Sha256::digest`.
///
/// Trusted: the digest is `sha256_digest(data)` and is 32 bytes long.
#[verifier::external_body]
fn sha256(data: &[u8]) -> (d: Vec<u8>)
    ensures
        d@ == sha256_digest(data@),
        d@.len() == 32,
{
    <sha2::Sha256 as sha2::Digest>::digest(data).to_vec()
}

/// The stored form of a token: the hexadecimal SHA-256 digest of its UTF-8 bytes.
pub open spec fn token_hash_text(token: Seq<char>) -> Seq<char> {
    hex_text(sha256_digest(vstd::utf8::encode_utf8(token)))
}

/// Hashes a token with SHA-256 for storage, as 64 lower-case hexadecimal
/// digits. Unsalted SHA-256 suffices: the tokens carry 256 bits of entropy.
pub fn hash_token(token: &str) -> (h: String)
    ensures
        h@ == token_hash_text(token@),
        h@.len() == 64,
{
    let d = sha256(token.as_bytes());
    let h = hex_encode(&d);
    proof {
        lemma_hex_text_shape(d@);
    }
    h
}

/// An invitation to join a project.
#[derive(Debug, Clone)]
pub struct ProjectInvitation {
    pub id: u128,
    pub project_id: u128,
    pub invited_by: u128,
    pub invited_by_name: String,
    pub project_name: String,
    pub role: MemberRole,
    pub expires_at: i64,
    pub accepted_at: Option<i64>,
    pub accepted_by: Option<u128>,
    pub created_at: i64,
}

/// What the holder of a token may learn of its invitation.
#[derive(Debug, Clone)]
pub struct InvitationInfo {
    pub id: u128,
    pub project_name: String,
    pub invited_by_name: String,
    pub role: MemberRole,
    pub expires_at: i64,
    pub expired: bool,
    pub accepted: bool,
}

/// The instant at which an invitation made at `now` expires: 72 hours later.
pub fn invitation_expiry(now: i64) -> (t: i64)
    requires
        now + EXPIRY_HOURS * MILLIS_PER_HOUR <= i64::MAX,
    ensures
        t == now + EXPIRY_HOURS * MILLIS_PER_HOUR,
{
    now + EXPIRY_HOURS * MILLIS_PER_HOUR
}

/// Message of an unknown token.
pub open spec fn invalid_token_text() -> Seq<char> {
    "invalid invitation token"@
}

/// Message of a second acceptance.
pub open spec fn already_accepted_text() -> Seq<char> {
    "invitation has already been accepted"@
}

/// Message of a late acceptance.
pub open spec fn expired_text() -> Seq<char> {
    "invitation has expired"@
}

/// What a token's holder sees at instant `now` of the invitation found for the
/// token; an unknown token is not found.
pub fn invitation_info(found: Option<ProjectInvitation>, now: i64) -> (r: Result<InvitationInfo, AppError>)
    ensures
        found is None ==> r is Err && r->Err_0 is NotFound && r->Err_0.text() == invalid_token_text(),
        found is Some ==> r is Ok && ({
            let inv = found->0;
            let info = r->Ok_0;
            &&& info.id == inv.id
            &&& info.project_name == inv.project_name
            &&& info.invited_by_name == inv.invited_by_name
            &&& info.role == inv.role
            &&& info.expires_at == inv.expires_at
            &&& info.expired == (inv.expires_at < now)
            &&& info.accepted == (inv.accepted_at is Some)
        }),
{
    match found {
        None => Err(AppError::NotFound(String::from_str("invalid invitation token"))),
        Some(inv) => Ok(InvitationInfo {
            id: inv.id,
            project_name: inv.project_name,
            invited_by_name: inv.invited_by_name,
            role: inv.role,
            expires_at: inv.expires_at,
            expired: inv.expires_at < now,
            accepted: inv.accepted_at.is_some(),
        }),
    }
}

/// Whether an invitation may be accepted at `now`: not yet accepted and not expired.
pub open spec fn acceptable(inv: ProjectInvitation, now: i64) -> bool {
    inv.accepted_at is None && !(inv.expires_at < now)
}

/// Decides whether the invitation found for a token may be accepted at `now`:
/// an unknown token is not found, an accepted invitation is a conflict, an
/// expired one a validation error.
pub fn check_acceptance(found: Option<ProjectInvitation>, now: i64) -> (r: Result<ProjectInvitation, AppError>)
    ensures
        found is None ==> r is Err && r->Err_0 is NotFound && r->Err_0.text() == invalid_token_text(),
        found is Some ==> (r is Ok <==> acceptable(found->0, now)),
        r is Ok ==> r->Ok_0 == found->0,
        found is Some && found->0.accepted_at is Some ==> r is Err && r->Err_0 is Conflict && r->Err_0.text() == already_accepted_text(),
        found is Some && found->0.accepted_at is None && found->0.expires_at < now ==> r is Err && r->Err_0 is Validation
            && r->Err_0.text() == expired_text(),
{
    match found {
        None => Err(AppError::NotFound(String::from_str("invalid invitation token"))),
        Some(inv) => {
            if inv.accepted_at.is_some() {
                return Err(AppError::Conflict(String::from_str("invitation has already been accepted")));
            }
            if inv.expires_at < now {
                return Err(AppError::Validation(String::from_str("invitation has expired")));
            }
            Ok(inv)
        },
    }
}

/// A membership that accepting an invitation adds to a project.
#[derive(Debug, Clone, Copy, PartialEq, Eq, Structural)]
pub struct MembershipGrant {
    pub project_id: u128,
    pub user_id: u128,
    pub role: MemberRole,
}

/// The membership that accepting `invitation` grants `user_id`: the
/// invitation's project and role, unless the user is already a member, who
/// gets nothing (and keeps the role held).
pub fn membership_to_grant(invitation: &ProjectInvitation, user_id: u128, already_member: bool) -> (r: Option<MembershipGrant>)
    ensures
        r is None <==> already_member,
        r is Some ==> r->0 == (MembershipGrant { project_id: invitation.project_id, user_id, role: invitation.role }),
{
    if already_member {
        None
    } else {
        Some(MembershipGrant { project_id: invitation.project_id, user_id, role: invitation.role })
    }
}

/// Checks that marking the invitation accepted changed a row: none changed
/// means another acceptance came first, a conflict.
pub fn check_marked_accepted(rows: u64) -> (r: Result<(), AppError>)
    ensures
        r is Ok <==> rows > 0,
        r is Err ==> r->Err_0 is Conflict && r->Err_0.text() == already_accepted_text(),
{
    if rows == 0 {
        return Err(AppError::Conflict(String::from_str("invitation has already been accepted")));
    }
    Ok(())
}

/// Message of a missing invitation.
pub open spec fn invitation_not_found_text(id: u128) -> Seq<char> {
    "invitation not found: "@ + uuid_text(id)
}

/// Checks that deleting an invitation removed a row.
pub fn check_invitation_deleted(id: u128, rows: u64) -> (r: Result<(), AppError>)
    ensures
        r is Ok <==> rows > 0,
        r is Err ==> r->Err_0 is NotFound && r->Err_0.text() == invitation_not_found_text(id),
{
    if rows == 0 {
        return Err(AppError::NotFound(String::from_str("invitation not found: ").concat(format_uuid(id).as_str())));
    }
    Ok(())
}

/// An invitation can be accepted at most once, and never after it expired:
/// once accepted, acceptance is refused at every instant; once expired,
/// acceptance stays refused at every later instant.
pub proof fn lemma_acceptance_window(inv: ProjectInvitation, now: i64, later: i64)
    ensures
        inv.accepted_at is Some ==> !acceptable(inv, now),
        !acceptable(inv, now) && now <= later ==> !acceptable(inv, later),
{
}

} // verus!
