//! Application services over the document store: access control, blog
//! posts and users.
use vstd::prelude::*;
use crate::collection::{all_decode, decoded_all, first_match, matching};
use crate::database::{DatabaseServiceTrait, found_first, id_unused, with_id};
use crate::document::{DatabaseDocumentTrait, FromDocument};
use crate::error::{AuthError, DatabaseError, ServiceAppError, ServiceResult};
use crate::model::{
    BlogPost, BlogPostBuilder, BlogPostModel, User, blog_post_fields, blog_post_first_missing,
};
use crate::query::{ConditionModel, Filter, FilterModel};
use crate::smart_document::{SmartDocumentReference, id_filter, resolvable};
use crate::dtos::{hex_of, to_hex};
use crate::text::push_str;
use crate::value::{ObjectId, Value, ValueModel};

verus! {

/// What `bcrypt::verify` gives for a password and a stored hash: whether they
/// match, or `None` for a hash it cannot read.
pub uninterp spec fn bcrypt_verdict(password: Seq<char>, hash: Seq<char>) -> Option<bool>;

/// Relies on bcrypt::verify: hashes `password` with the salt and cost read
/// from `hash` and compares; fails on a malformed hash. The outcome depends
/// on the two strings alone.
#[verifier::external_body]
fn verify_password(password: &str, hash: &str) -> (r: Result<bool, String>)
    ensures
        match r {
            Ok(b) => bcrypt_verdict(password@, hash@) == Some(b),
            Err(_) => bcrypt_verdict(password@, hash@) is None,
        },
{
    bcrypt::verify(password, hash).map_err(|e| e.to_string())
}

/// Relies on bcrypt::hash with bcrypt::DEFAULT_COST: a hash with a random
/// salt, so nothing is promised of its text; bcrypt::verify accepts the
/// password against it, since both truncate the password in the same way
/// and verification rehashes with the salt and cost the hash records.
#[verifier::external_body]
fn bcrypt_hash(password: &str) -> (r: Result<String, String>)
    ensures
        r is Ok ==> bcrypt_verdict(password@, r->Ok_0@) == Some(true),
{
    bcrypt::hash(password, bcrypt::DEFAULT_COST).map_err(|e| e.to_string())
}

/// Hashes a password for storage; a failure of the hashing is an
/// `InternalServerError`.
pub fn hash_password(password: &str) -> (r: ServiceResult<String>)
    ensures
        r is Err ==> r->Err_0 is InternalServerError,
        r is Ok ==> bcrypt_verdict(password@, r->Ok_0@) == Some(true),
{
    match bcrypt_hash(password) {
        Ok(h) => Ok(h),
        Err(e) => Err(ServiceAppError::InternalServerError(e)),
    }
}

/// Whether `e` is an access control failure with message `text`.
pub open spec fn access_denied(e: ServiceAppError, text: Seq<char>) -> bool {
    match e {
        ServiceAppError::AccessControlError(m) => m@ == text,
        _ => false,
    }
}

/// The message for a user whose identity names no stored user.
pub open spec fn unknown_user_text(id: Seq<u8>) -> Seq<char> {
    "User with id "@ + hex_of(id) + " is not valid"@
}

/// How a failure to load the user is reported: a user that does not exist
/// as an `AccessControlError` naming its identity, any other error unchanged
/// as a `DatabaseError`.
pub fn access_load_error(e: DatabaseError) -> (r: ServiceAppError)
    ensures
        match e {
            DatabaseError::DocumentDoesNotExist(id) => access_denied(r, unknown_user_text(id@)),
            _ => r == ServiceAppError::DatabaseError(e),
        },
{
    match e {
        DatabaseError::DocumentDoesNotExist(id) => {
            let mut msg = "User with id ".to_owned();
            push_str(&mut msg, to_hex(&id).as_str());
            push_str(&mut msg, " is not valid");
            ServiceAppError::AccessControlError(msg)
        },
        other => ServiceAppError::DatabaseError(other),
    }
}

/// Checks a user's permissions; holds the user's reference, loaded once.
pub struct AccessControl {
    user: SmartDocumentReference<User>,
}

impl AccessControl {
    /// The user reference held.
    pub closed spec fn user(&self) -> SmartDocumentReference<User> {
        self.user
    }

    /// Loads the user; a user that does not exist is an
    /// `AccessControlError`, any other failure a `DatabaseError`.
    pub fn new<D: DatabaseServiceTrait>(
        user: SmartDocumentReference<User>,
        database_service: &D,
    ) -> (r: ServiceResult<AccessControl>)
        requires
            database_service.wf(),
        ensures
            r is Ok ==> r->Ok_0.user() is Document,
            user is Document ==> r is Ok && r->Ok_0.user() == user,
            match user {
                SmartDocumentReference::Id(id) => {
                    let docs = database_service.docs(User::spec_collection_name());
                    &&& r is Ok ==> found_first(
                        docs,
                        id_filter(id@),
                        None,
                        Some(r->Ok_0.user()->Document_0),
                    )
                    &&& D::in_process() ==> (r is Ok <==> resolvable::<User>(docs, id@))
                    &&& D::in_process() && first_match(docs, id_filter(id@)) == -1 ==> r is Err
                        && access_denied(r->Err_0, unknown_user_text(id@))
                    &&& D::in_process() && first_match(docs, id_filter(id@)) >= 0 && r is Err
                        ==> r->Err_0 is DatabaseError && r->Err_0->DatabaseError_0 is DocumentNotValid
                    &&& r is Err ==> r->Err_0 is AccessControlError || r->Err_0 is DatabaseError
                },
                _ => true,
            },
    {
        let mut user = user;
        match user.as_document_ref(database_service) {
            Ok(_) => {},
            Err(e) => {
                return Err(access_load_error(e));
            },
        }
        Ok(AccessControl { user })
    }

    /// Succeeds if the user is a platform admin; otherwise an
    /// `AccessControlError`.
    pub fn is_platform_admin_ref<D: DatabaseServiceTrait>(&mut self, database_service: &D) -> (r:
        ServiceResult<()>)
        requires
            database_service.wf(),
        ensures
            old(self).user() is Document ==> final(self).user() == old(self).user(),
            final(self).user() is Document ==> {
                &&& r is Ok <==> final(self).user()->Document_0@.admin
                &&& r is Err ==> access_denied(r->Err_0, "User is not admin"@)
            },
            final(self).user() is Id ==> r is Err && r->Err_0 is DatabaseError
                && final(self).user() == old(self).user(),
            old(self).user() matches SmartDocumentReference::Id(id) ==> {
                let docs = database_service.docs(User::spec_collection_name());
                &&& final(self).user() is Document ==> found_first(
                    docs,
                    id_filter(id@),
                    None,
                    Some(final(self).user()->Document_0),
                )
                &&& D::in_process() && first_match(docs, id_filter(id@)) == -1 ==> r
                    == Err::<(), ServiceAppError>(
                    ServiceAppError::DatabaseError(DatabaseError::DocumentDoesNotExist(id)),
                )
            },
    {
        match self.user.as_document_ref(database_service) {
            Ok(u) => {
                if u.admin() {
                    Ok(())
                } else {
                    Err(ServiceAppError::AccessControlError("User is not admin".to_owned()))
                }
            },
            Err(e) => Err(ServiceAppError::DatabaseError(e)),
        }
    }

    /// Hands the access control back if the user is a platform admin.
    pub fn is_platform_admin<D: DatabaseServiceTrait>(self, database_service: &D) -> (r:
        ServiceResult<AccessControl>)
        requires
            database_service.wf(),
        ensures
            self.user() matches SmartDocumentReference::Document(u) ==> (r is Ok <==> u@.admin),
            r is Ok ==> r->Ok_0.user() is Document && r->Ok_0.user()->Document_0@.admin,
    {
        let mut this = self;
        this.is_platform_admin_ref(database_service)?;
        Ok(this)
    }

    /// Succeeds if the user may publish; otherwise an `AccessControlError`.
    pub fn is_publisher_ref<D: DatabaseServiceTrait>(&mut self, database_service: &D) -> (r:
        ServiceResult<()>)
        requires
            database_service.wf(),
        ensures
            old(self).user() is Document ==> final(self).user() == old(self).user(),
            final(self).user() is Document ==> {
                &&& r is Ok <==> final(self).user()->Document_0@.publisher
                &&& r is Err ==> access_denied(r->Err_0, "User is not publisher"@)
            },
            final(self).user() is Id ==> r is Err && r->Err_0 is DatabaseError
                && final(self).user() == old(self).user(),
            old(self).user() matches SmartDocumentReference::Id(id) ==> {
                let docs = database_service.docs(User::spec_collection_name());
                &&& final(self).user() is Document ==> found_first(
                    docs,
                    id_filter(id@),
                    None,
                    Some(final(self).user()->Document_0),
                )
                &&& D::in_process() && first_match(docs, id_filter(id@)) == -1 ==> r
                    == Err::<(), ServiceAppError>(
                    ServiceAppError::DatabaseError(DatabaseError::DocumentDoesNotExist(id)),
                )
            },
    {
        match self.user.as_document_ref(database_service) {
            Ok(u) => {
                if u.publisher() {
                    Ok(())
                } else {
                    Err(ServiceAppError::AccessControlError("User is not publisher".to_owned()))
                }
            },
            Err(e) => Err(ServiceAppError::DatabaseError(e)),
        }
    }

    /// Hands the access control back if the user may publish.
    pub fn is_publisher<D: DatabaseServiceTrait>(self, database_service: &D) -> (r: ServiceResult<
        AccessControl,
    >)
        requires
            database_service.wf(),
        ensures
            self.user() matches SmartDocumentReference::Document(u) ==> (r is Ok
                <==> u@.publisher),
            r is Ok ==> r->Ok_0.user() is Document && r->Ok_0.user()->Document_0@.publisher,
    {
        let mut this = self;
        this.is_publisher_ref(database_service)?;
        Ok(this)
    }
}

/// The filter of a post listing: the author's posts, or every post.
pub open spec fn posts_filter(user_id: Option<ObjectId>) -> FilterModel {
    match user_id {
        Some(id) => seq![("user_id"@, ConditionModel::Equal(ValueModel::Id(id@)))],
        None => Seq::empty(),
    }
}

/// How a failure to store a post is reported: a document that is not valid
/// as an `InvalidRequest` with its message, any other error unchanged as a
/// `DatabaseError`.
pub fn publish_error(e: DatabaseError) -> (r: ServiceAppError)
    ensures
        match e {
            DatabaseError::DocumentNotValid(msg) => r == ServiceAppError::InvalidRequest(msg),
            _ => r == ServiceAppError::DatabaseError(e),
        },
{
    match e {
        DatabaseError::DocumentNotValid(msg) => ServiceAppError::InvalidRequest(msg),
        other => ServiceAppError::DatabaseError(other),
    }
}

/// Publishes and lists blog posts, within an optional transaction.
pub struct BlogService<D: DatabaseServiceTrait> {
    transaction: Option<D::Transaction>,
}

impl<D: DatabaseServiceTrait> BlogService<D> {
    pub fn new(transaction: Option<D::Transaction>) -> (r: BlogService<D>)
        ensures
            r.transaction() == transaction,
    {
        BlogService { transaction }
    }

    /// The transaction that scopes the posts this service publishes.
    pub closed spec fn transaction(&self) -> Option<D::Transaction> {
        self.transaction
    }

    /// Stores a new post. A missing field is an `InvalidRequest` naming it;
    /// a failure of the store a `DatabaseError`.
    pub fn publish_post(
        &self,
        database_service: &mut D,
        title: String,
        content: String,
        user_id: ObjectId,
        username: String,
        creation_date: i64,
    ) -> (r: ServiceResult<BlogPost>)
        requires
            old(database_service).wf(),
        ensures
            final(database_service).wf(),
            r is Ok ==> r->Ok_0@ == (BlogPostModel {
                id: r->Ok_0@.id,
                title: title@,
                content: content@,
                creation_date: creation_date as int,
                user_id: user_id@,
                username: username@,
            }),
            r is Ok ==> {
                let before = old(database_service).docs(BlogPost::spec_collection_name());
                let payload = blog_post_fields(
                    title@,
                    content@,
                    creation_date as int,
                    user_id@,
                    username@,
                );
                &&& id_unused(before, r->Ok_0@.id)
                &&& final(database_service).docs(BlogPost::spec_collection_name()) == before.push(
                    with_id(payload, r->Ok_0@.id),
                )
                &&& BlogPost::decode(with_id(payload, r->Ok_0@.id)) == Some(r->Ok_0@)
            },
            r is Ok ==> forall|c: Seq<char>|
                c != BlogPost::spec_collection_name() ==> (#[trigger] final(database_service).docs(c))
                    == old(database_service).docs(c),
            r is Err ==> forall|c: Seq<char>|
                (#[trigger] final(database_service).docs(c)) == old(database_service).docs(c),
            r is Err ==> r->Err_0 is InvalidRequest || r->Err_0 is DatabaseError,
            D::in_process() && r is Err ==> r->Err_0 == ServiceAppError::DatabaseError(
                DatabaseError::InvalidObjectId,
            ),
    {
        let builder = BlogPostBuilder::new().title(title).content(content).user_id(user_id).username(
            username,
        ).creation_date(creation_date);
        assert(blog_post_first_missing(builder@) is None);
        let tx = match &self.transaction {
            Some(t) => Some(t),
            None => None,
        };
        match builder.build(database_service, tx) {
            Ok(p) => Ok(p),
            Err(e) => Err(publish_error(e)),
        }
    }

    /// Every post, or only those of the user `user_id`, in order.
    pub fn get_posts(&self, database_service: &D, user_id: Option<ObjectId>) -> (r: ServiceResult<
        Vec<BlogPost>,
    >)
        requires
            database_service.wf(),
        ensures
            ({
                let found = matching(
                    database_service.docs(BlogPost::spec_collection_name()),
                    posts_filter(user_id),
                );
                &&& r is Ok ==> decoded_all(found, r->Ok_0@)
                &&& D::in_process() ==> (r is Ok <==> all_decode::<BlogPost>(found))
            }),
    {
        let filter = match user_id {
            Some(id) => Filter::new().equal("user_id".to_owned(), Value::Id(id)),
            None => Filter::new(),
        };
        proof {
            reveal_strlit("user_id");
            assert(filter@ =~= posts_filter(user_id));
        }
        match database_service.find_many::<BlogPost>(&filter) {
            Ok(posts) => Ok(posts),
            Err(e) => Err(ServiceAppError::DatabaseError(e)),
        }
    }
}

/// The filter that selects users by name.
pub open spec fn username_filter(username: Seq<char>) -> FilterModel {
    seq![("username"@, ConditionModel::Equal(ValueModel::Str(username)))]
}

/// Operations of one user, from their own point of view.
pub struct UserService {
    user: SmartDocumentReference<User>,
}

impl UserService {
    pub fn new(user: SmartDocumentReference<User>) -> (r: UserService)
        ensures
            r.user() == user,
    {
        UserService { user }
    }

    /// The user reference held.
    pub closed spec fn user(&self) -> SmartDocumentReference<User> {
        self.user
    }

    /// The user, loaded from the store on the first call only.
    pub fn get<D: DatabaseServiceTrait>(&mut self, database_service: &D) -> (r: ServiceResult<User>)
        requires
            database_service.wf(),
        ensures
            old(self).user() matches SmartDocumentReference::Document(u) ==> r is Ok && r->Ok_0@
                == u@ && final(self).user() == old(self).user(),
            old(self).user() matches SmartDocumentReference::Id(id) ==> (r is Ok ==> found_first(
                database_service.docs(User::spec_collection_name()),
                id_filter(id@),
                None,
                Some(r->Ok_0),
            )),
            r is Ok ==> final(self).user() is Document && final(self).user()->Document_0@ == r->Ok_0@,
    {
        match self.user.as_document_ref(database_service) {
            Ok(u) => Ok(u.duplicate()),
            Err(e) => Err(ServiceAppError::DatabaseError(e)),
        }
    }

    /// Accepts `user` if the password check passed: a failed check is
    /// `WrongCredentials`, a check that could not be made an
    /// `InternalServerError`.
    pub fn check_credentials(user: User, verdict: Result<bool, String>) -> (r: ServiceResult<User>)
        ensures
            match verdict {
                Ok(true) => r is Ok && r->Ok_0@ == user@,
                Ok(false) => r matches Err(
                    ServiceAppError::AuthorizationError(AuthError::WrongCredentials),
                ),
                Err(_) => r is Err && r->Err_0 is InternalServerError,
            },
    {
        match verdict {
            Ok(true) => Ok(user),
            Ok(false) => Err(ServiceAppError::AuthorizationError(AuthError::WrongCredentials)),
            Err(e) => Err(ServiceAppError::InternalServerError(e)),
        }
    }

    /// Finds the user named `username` and checks `password` against the
    /// stored hash. An unknown name or a wrong password is
    /// `WrongCredentials`.
    pub fn login<D: DatabaseServiceTrait>(database_service: &D, username: &str, password: &str) -> (r:
        ServiceResult<User>)
        requires
            database_service.wf(),
        ensures
            ({
                let docs = database_service.docs(User::spec_collection_name());
                let f = username_filter(username@);
                &&& r is Ok ==> found_first(docs, f, None, Some(r->Ok_0)) && bcrypt_verdict(
                    password@,
                    r->Ok_0@.password_hash,
                ) == Some(true)
                &&& D::in_process() && first_match(docs, f) == -1 ==> r is Err && r->Err_0
                    == ServiceAppError::AuthorizationError(AuthError::WrongCredentials)
                &&& D::in_process() && first_match(docs, f) >= 0 && User::decode(
                    docs[first_match(docs, f)],
                ) is Some ==> (r is Ok <==> bcrypt_verdict(
                    password@,
                    User::decode(docs[first_match(docs, f)])->0.password_hash,
                ) == Some(true))
            }),
    {
        let filter = Filter::new().equal("username".to_owned(), Value::Str(username.to_owned()));
        proof {
            reveal_strlit("username");
            assert(filter@ =~= username_filter(username@));
        }
        match database_service.find_one::<User>(&filter) {
            Ok(Some(user)) => {
                let verdict = verify_password(password, user.password_hash().as_str());
                Self::check_credentials(user, verdict)
            },
            Ok(None) => Err(ServiceAppError::AuthorizationError(AuthError::WrongCredentials)),
            Err(e) => Err(ServiceAppError::DatabaseError(e)),
        }
    }
}

} // verus!
