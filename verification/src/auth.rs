//! Account and session value types, and the parsing of bearer
//! credentials out of an `Authorization` header.  Password hashing and
//! session persistence live outside the core.

use vstd::prelude::*;
use vstd::string::StringSliceAdditionalSpecFns;
use vstd::utf8::encode_utf8;
use vstd::utf8::encode_utf8_valid_utf8;

use crate::text::lemma_ascii_prefix_is_boundary;

verus! {

/// An account as the session layer hands it to the core.
pub struct User {
    pub id: i32,
    pub username: String,
    pub password_hash: String,
}

/// A caller that must be signed in.
pub struct AuthUser(pub User);

/// A caller that may or may not be signed in.
pub struct PermissiveAuthUser(pub Option<User>);

/// A registration request.
pub struct CreateUser {
    pub username: String,
    pub password: String,
}

/// A login request.
pub struct LoginUser {
    pub username: String,
    pub password: String,
}

/// What a successful login returns.
pub struct LoginResponse {
    pub token: String,
}

/// The bytes of `Bearer `.
pub open spec fn bearer_prefix() -> Seq<u8> {
    seq![66u8, 101u8, 97u8, 114u8, 101u8, 114u8, 32u8]
}

/// Whether the header bytes start with `Bearer `.
pub open spec fn has_bearer_prefix(b: Seq<u8>) -> bool {
    b.len() >= 7 && b.subrange(0, 7) == bearer_prefix()
}

/// The bearer token of an `Authorization` header: the part after the
/// `Bearer ` prefix, or `None` when the header has no such prefix.
pub fn token_from_auth_header(header: &str) -> (r: Option<String>)
    ensures
        r matches Some(t) ==> has_bearer_prefix(header.spec_bytes()) && encode_utf8(t@)
            == header.spec_bytes().subrange(7, header.spec_bytes().len() as int),
        r is None <==> !has_bearer_prefix(header.spec_bytes()),
{
    let b: &[u8] = header.as_bytes();
    let n: usize = b.len();
    if n < 7 {
        return None;
    }
    if b[0] == 66u8 && b[1] == 101u8 && b[2] == 97u8 && b[3] == 114u8 && b[4] == 101u8 && b[5]
        == 114u8 && b[6] == 32u8 {
        proof {
            assert(b@.subrange(0, 7) =~= bearer_prefix());
            encode_utf8_valid_utf8(header@);
            lemma_ascii_prefix_is_boundary(header.spec_bytes(), 7);
        }
        let (_, rest) = header.split_at(7);
        Some(rest.to_owned())
    } else {
        proof {
            if b@.subrange(0, 7) == bearer_prefix() {
                assert(b@.subrange(0, 7)[0] == b@[0]);
                assert(b@.subrange(0, 7)[1] == b@[1]);
                assert(b@.subrange(0, 7)[2] == b@[2]);
                assert(b@.subrange(0, 7)[3] == b@[3]);
                assert(b@.subrange(0, 7)[4] == b@[4]);
                assert(b@.subrange(0, 7)[5] == b@[5]);
                assert(b@.subrange(0, 7)[6] == b@[6]);
            }
        }
        None
    }
}

} // verus!
