//! Values exchanged with the HTTP API by the server.
use vstd::prelude::*;
use crate::document::DatabaseDocumentTrait;
use crate::model;
use crate::value::ObjectId;

verus! {

/// A value sent or received as a JSON body.
#[derive(Debug)]
pub struct AppJson<T>(pub T);

/// A request to create a user.
#[derive(Debug)]
pub struct CreateUser {
    pub first_name: String,
    pub last_name: String,
    pub username: String,
    pub password: String,
    pub admin: bool,
}

/// A request to register.
#[derive(Debug)]
pub struct RegisterInfo {
    pub first_name: String,
    pub last_name: String,
    pub username: String,
    pub password: String,
}

/// Credentials for a token.
#[derive(Debug)]
pub struct JWTAuthPayload {
    pub username: String,
    pub password: String,
}

/// The logged-in user; the token is present after login and registration.
#[derive(Debug)]
pub struct LoggedUserInfoResponse {
    pub token: Option<String>,
    pub user_id: String,
    pub username: String,
    pub admin: bool,
}

/// A request to publish a post.
#[derive(Debug)]
pub struct PublishPost {
    pub title: String,
    pub content: String,
}

/// The lowercase hexadecimal digit for `n`.
pub open spec fn hex_digit(n: u8) -> char {
    if n < 10 {
        ('0' as u8 + n) as char
    } else {
        ('a' as u8 + (n - 10)) as u8 as char
    }
}

/// Lowercase hexadecimal form of `bytes`: two digits per byte.
pub open spec fn hex_of(bytes: Seq<u8>) -> Seq<char>
    decreases bytes.len(),
{
    if bytes.len() == 0 {
        Seq::empty()
    } else {
        hex_of(bytes.drop_last()).push(hex_digit(bytes.last() / 16)).push(
            hex_digit(bytes.last() % 16),
        )
    }
}

fn hex_char(n: u8) -> (r: char)
    requires
        n < 16,
    ensures
        r == hex_digit(n),
{
    if n < 10 {
        ('0' as u8 + n) as char
    } else {
        ('a' as u8 + (n - 10)) as char
    }
}

/// Relies on String::push: appends one character.
#[verifier::external_body]
fn push_char(s: &mut String, c: char)
    ensures
        final(s)@ == old(s)@.push(c),
{
    s.push(c)
}

/// The identity in lowercase hexadecimal, as object ids are written.
pub fn to_hex(id: &ObjectId) -> (r: String)
    ensures
        r@ == hex_of(id@),
{
    let mut out = String::new();
    let mut i: usize = 0;
    while i < 12
        invariant
            0 <= i <= 12,
            id@.len() == 12,
            out@ == hex_of(id@.subrange(0, i as int)),
        decreases 12 - i,
    {
        let b = id.bytes[i];
        push_char(&mut out, hex_char(b / 16));
        push_char(&mut out, hex_char(b % 16));
        assert(id@.subrange(0, i + 1).drop_last() =~= id@.subrange(0, i as int));
        i = i + 1;
    }
    assert(id@.subrange(0, 12) =~= id@);
    out
}

/// A user as the admin API shows it.
#[derive(Debug)]
pub struct User {
    pub user_id: String,
    pub first_name: String,
    pub last_name: String,
    pub username: String,
    pub admin: bool,
}

impl User {
    /// The API form of a stored user: its identity in hexadecimal and its
    /// public fields.
    pub fn from_model(value: &model::User) -> (r: User)
        ensures
            r.user_id@ == hex_of(value@.id),
            r.first_name@ == value@.first_name,
            r.last_name@ == value@.last_name,
            r.username@ == value@.username,
            r.admin == value@.admin,
    {
        User {
            user_id: to_hex(value.get_id()),
            first_name: value.first_name().clone(),
            last_name: value.last_name().clone(),
            username: value.username().clone(),
            admin: value.admin(),
        }
    }
}

/// A blog post as the API shows it; the creation date is in milliseconds
/// since the Unix epoch.
#[derive(Debug)]
pub struct BlogPost {
    pub id: String,
    pub title: String,
    pub content: String,
    pub creator_id: String,
    pub creator_username: String,
    pub creation_date: i64,
}

impl BlogPost {
    /// The API form of a stored post: identities in hexadecimal.
    pub fn from_model(value: &model::BlogPost) -> (r: BlogPost)
        ensures
            r.id@ == hex_of(value@.id),
            r.title@ == value@.title,
            r.content@ == value@.content,
            r.creator_id@ == hex_of(value@.user_id),
            r.creator_username@ == value@.username,
            r.creation_date as int == value@.creation_date,
    {
        BlogPost {
            id: to_hex(value.get_id()),
            title: value.title().clone(),
            content: value.content().clone(),
            creator_id: to_hex(value.user_id()),
            creator_username: value.username().clone(),
            creation_date: value.creation_date(),
        }
    }
}

} // verus!
