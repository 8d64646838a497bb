//! The user-creation service and its controller.  Validation is a single
//! shot: the email must contain an `@` and the username must be at least
//! three bytes long.  On success a fresh random identifier is fabricated —
//! nothing is stored, and identical input never repeats an identifier.

use vstd::prelude::*;
use vstd::string::StrSliceExecFns;
use vstd::string::StringExecFns;
use vstd::utf8::encode_utf8;

use crate::envelope::AppResponse;
use crate::envelope::ToJson;
use crate::envelope::error_json;
use crate::envelope::success_json;
use crate::json::json_bool;
use crate::json::json_string;
use crate::json::push_json_bool;
use crate::json::push_json_string;
use crate::logging::LogRecord;
use crate::logging::Severity;
use crate::text::digit_char;
use crate::text::hex_pad;
use crate::text::lemma_hex_pad_len;
use crate::text::push_u64_hex_pad;

verus! {

/// The body of a create-user request.
#[derive(Debug)]
pub struct CreateUserDto {
    pub username: String,
    pub email: String,
}

/// The fabricated record a successful creation returns; it is never stored.
#[derive(Debug)]
pub struct UserResponseDto {
    pub id: u128,
    pub username: String,
    pub email: String,
    pub active: bool,
}

/// An email is acceptable when it contains an `@` anywhere.
pub open spec fn valid_email(s: Seq<char>) -> bool {
    exists|i: int| 0 <= i < s.len() && s[i] == '@'
}

/// A username is acceptable when its UTF-8 encoding is at least 3 bytes.
pub open spec fn valid_username(s: Seq<char>) -> bool {
    encode_utf8(s).len() >= 3
}

/// An identifier whose RFC 4122 version nibble says "random".
pub open spec fn is_v4_id(id: u128) -> bool {
    ((id as nat) / 0x10000000000000000000) % 16 == 4
}

/// Relies on `uuid::Uuid::new_v4` (read out through `Uuid::as_u128`, which
/// is big-endian): a fresh random version-4 identifier, so the four version
/// bits — bits 76 to 79 of the 128-bit value — always hold 4.
#[verifier::external_body]
fn fresh_uuid_u128() -> (r: u128)
    ensures
        is_v4_id(r),
{
    uuid::Uuid::new_v4().as_u128()
}

/// The canonical hyphenated rendering of a 128-bit identifier: five
/// lower-case hexadecimal groups of 8, 4, 4, 4 and 12 digits.
pub open spec fn uuid_str(id: u128) -> Seq<char> {
    let n = id as nat;
    hex_pad((n / 0x1000000000000000000000000) % 0x100000000, 8) + "-"@ + hex_pad(
        (n / 0x100000000000000000000) % 0x10000,
        4,
    ) + "-"@ + hex_pad((n / 0x10000000000000000) % 0x10000, 4) + "-"@ + hex_pad(
        (n / 0x1000000000000) % 0x10000,
        4,
    ) + "-"@ + hex_pad(n % 0x1000000000000, 12)
}

/// Appends the hyphenated rendering of `id`.
pub fn push_uuid(out: &mut String, id: u128)
    ensures
        final(out)@ == old(out)@ + uuid_str(id),
{
    let g1 = ((id / 0x1000000000000000000000000) % 0x100000000) as u64;
    let g2 = ((id / 0x100000000000000000000) % 0x10000) as u64;
    let g3 = ((id / 0x10000000000000000) % 0x10000) as u64;
    let g4 = ((id / 0x1000000000000) % 0x10000) as u64;
    let g5 = (id % 0x1000000000000) as u64;
    let ghost prev = out@;
    push_u64_hex_pad(out, g1, 8);
    out.append("-");
    push_u64_hex_pad(out, g2, 4);
    out.append("-");
    push_u64_hex_pad(out, g3, 4);
    out.append("-");
    push_u64_hex_pad(out, g4, 4);
    out.append("-");
    push_u64_hex_pad(out, g5, 12);
    proof {
        assert(out@ =~= prev + uuid_str(id));
    }
}

/// Law: a version-4 identifier shows its version in the canonical rendering
/// — the 36-character hyphenated form carries a literal `4` at position 14,
/// the first digit of the third group.
pub proof fn lemma_rendered_id_is_version_4(id: u128)
    requires
        is_v4_id(id),
    ensures
        uuid_str(id).len() == 36,
        uuid_str(id)[14] == '4',
{
    let n = id as nat;
    let g1 = (n / 0x1000000000000000000000000) % 0x100000000;
    let g2 = (n / 0x100000000000000000000) % 0x10000;
    let g3 = (n / 0x10000000000000000) % 0x10000;
    let g4 = (n / 0x1000000000000) % 0x10000;
    let g5 = n % 0x1000000000000;
    lemma_hex_pad_len(g1, 8);
    lemma_hex_pad_len(g2, 4);
    lemma_hex_pad_len(g3, 4);
    lemma_hex_pad_len(g4, 4);
    lemma_hex_pad_len(g5, 12);
    reveal_strlit("-");

    // The third group starts at position 14.
    assert(uuid_str(id)[14] == hex_pad(g3, 4)[0]);

    // Its first digit is the group's high nibble.
    assert(hex_pad(g3, 4) == hex_pad(g3 / 16, 3) + seq![digit_char(g3 % 16)]);
    assert(hex_pad(g3 / 16, 3) == hex_pad(g3 / 256, 2) + seq![digit_char((g3 / 16) % 16)]);
    assert(hex_pad(g3 / 256, 2) == hex_pad(g3 / 4096, 1) + seq![digit_char((g3 / 256) % 16)]);
    assert(hex_pad(g3 / 4096, 1) == hex_pad(g3 / 65536, 0) + seq![digit_char((g3 / 4096) % 16)]);
    lemma_hex_pad_len(g3 / 65536, 0);
    assert(hex_pad(g3, 4)[0] == digit_char((g3 / 4096) % 16));

    // And that nibble is bits 76 to 79 of the identifier.
    let x = n / 0x10000000000000000;
    vstd::arithmetic::div_mod::lemma_breakdown(x as int, 0x1000, 0x10);
    assert(g3 == 0x1000 * ((x / 0x1000) % 0x10) + x % 0x1000);
    vstd::arithmetic::div_mod::lemma_fundamental_div_mod_converse(
        g3 as int,
        0x1000,
        ((x / 0x1000) % 0x10) as int,
        (x % 0x1000) as int,
    );
    assert(g3 / 4096 == (x / 0x1000) % 0x10);
    vstd::arithmetic::div_mod::lemma_div_denominator(n as int, 0x10000000000000000, 0x1000);
    assert(x / 0x1000 == n / 0x10000000000000000000);
    assert((g3 / 4096) % 16 == 4);
}

/// The JSON rendering of a fabricated user record.
pub open spec fn user_json(id: u128, username: Seq<char>, email: Seq<char>, active: bool) -> Seq<
    char,
> {
    "{\"id\":\""@ + uuid_str(id) + "\",\"username\":"@ + json_string(username) + ",\"email\":"@
        + json_string(email) + ",\"active\":"@ + json_bool(active) + "}"@
}

impl ToJson for UserResponseDto {
    open spec fn json_repr(&self) -> Seq<char> {
        user_json(self.id, self.username@, self.email@, self.active)
    }

    fn to_json(&self) -> (r: String)
        ensures
            r@ == self.json_repr(),
    {
        let mut out = String::from_str("{\"id\":\"");
        push_uuid(&mut out, self.id);
        out.append("\",\"username\":");
        push_json_string(&mut out, self.username.as_str());
        out.append(",\"email\":");
        push_json_string(&mut out, self.email.as_str());
        out.append(",\"active\":");
        push_json_bool(&mut out, self.active);
        out.append("}");
        proof {
            assert(out@ =~= self.json_repr());
        }
        out
    }
}

/// Whether `s` contains an `@`.
fn contains_at(s: &str) -> (r: bool)
    ensures
        r == valid_email(s@),
{
    let n = s.unicode_len();
    let mut i: usize = 0;
    while i < n
        invariant
            0 <= i <= n,
            n == s@.len(),
            forall|j: int| 0 <= j < i ==> s@[j] != '@',
        decreases n - i,
    {
        if s.get_char(i) == '@' {
            return true;
        }
        i = i + 1;
    }
    false
}

/// Validates the request and fabricates a user record.
///
/// Returns an error exactly when the input is invalid: first the email is
/// checked for an `@`, then the username for its minimum length.  On
/// success the input is echoed back with `active` set and a fresh random
/// identifier; nothing is persisted, so identical input yields a new
/// identifier on every call.
pub fn create_user(payload: CreateUserDto) -> (r: Result<UserResponseDto, String>)
    ensures
        r is Ok <==> (valid_email(payload.email@) && valid_username(payload.username@)),
        r matches Ok(u) ==> u.username@ == payload.username@ && u.email@ == payload.email@
            && u.active == true && is_v4_id(u.id),
        !valid_email(payload.email@) ==> (r matches Err(m) && m@ == "Invalid email format"@),
        valid_email(payload.email@) && !valid_username(payload.username@) ==> (r matches Err(m)
            && m@ == "Username must be at least 3 characters"@),
{
    if !contains_at(payload.email.as_str()) {
        return Err(String::from_str("Invalid email format"));
    }
    if payload.username.as_str().as_bytes().len() < 3 {
        return Err(String::from_str("Username must be at least 3 characters"));
    }
    let new_id = fresh_uuid_u128();
    Ok(UserResponseDto { id: new_id, username: payload.username, email: payload.email, active: true })
}

/// The reason string a rejected creation reports.
pub open spec fn create_error_reason(payload: CreateUserDto) -> Seq<char> {
    if !valid_email(payload.email@) {
        "Invalid email format"@
    } else {
        "Username must be at least 3 characters"@
    }
}

/// The create-user controller: runs the service, wraps the outcome in the
/// uniform envelope, and returns the status code, the serialized body and
/// the log record to submit detached.
pub fn create(payload: CreateUserDto) -> (r: (u16, String, LogRecord))
    ensures
        valid_email(payload.email@) && valid_username(payload.username@) ==> {
            &&& r.0 == 201
            &&& exists|id: u128|
                is_v4_id(id) && r.1@ == success_json(
                    201,
                    "User created successfully"@,
                    user_json(id, payload.username@, payload.email@, true),
                )
            &&& r.2.severity == Severity::Info
            &&& r.2.status == 201
            &&& r.2.message@ == "User created successfully"@
            &&& r.2.detail is None
        },
        !(valid_email(payload.email@) && valid_username(payload.username@)) ==> {
            &&& r.0 == 400
            &&& r.1@ == error_json(400, "Failed to create user"@, create_error_reason(payload))
            &&& r.2.severity == Severity::Error
            &&& r.2.status == 400
            &&& r.2.message@ == "Failed to create user"@
            &&& r.2.detail matches Some(d) && d@ == create_error_reason(payload)
        },
{
    let ghost username_view = payload.username@;
    let ghost email_view = payload.email@;
    match create_user(payload) {
        Ok(user) => {
            let ghost the_id = user.id;
            let (env, record) = AppResponse::success(user, "User created successfully", 201);
            let body = env.to_json();
            proof {
                assert(is_v4_id(the_id) && body@ == success_json(
                    201,
                    "User created successfully"@,
                    user_json(the_id, username_view, email_view, true),
                ));
            }
            (201, body, record)
        },
        Err(reason) => {
            let (env, record) = AppResponse::error(
                reason.as_str(),
                "Failed to create user",
                400,
            );
            let body = env.to_json();
            (400, body, record)
        },
    }
}

} // verus!
