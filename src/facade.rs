//! Request-level operations: each checks the caller's permissions, runs the
//! services and maps their errors to what the client is told.
use vstd::prelude::*;
use crate::auth::AuthInfo;
use crate::database::DatabaseServiceTrait;
use crate::document::DatabaseDocumentTrait;
use crate::dtos::{LoggedUserInfoResponse, hex_of, to_hex};
use crate::error::{AppError, DatabaseError, FacadeResult, ServiceAppError};
use crate::model::{BlogPost, User};
use crate::query::Filter;
use crate::service::{AccessControl, BlogService, UserService};
use crate::smart_document::SmartDocumentReference;
use crate::collection::{
    decoded_all, first_match, lemma_first_match_from, matching, matching_prefix,
};
use crate::database::found_first;
use crate::query::{FilterModel, clause_holds, satisfies};
use crate::service::posts_filter;
use crate::smart_document::id_filter;
use crate::value::{DocModel, ObjectId};

verus! {

/// How a failed permission check is told to the client: an access control
/// failure as such, anything else as an internal error.
pub fn access_error(err: ServiceAppError) -> (r: AppError)
    ensures
        match err {
            ServiceAppError::AccessControlError(m) => r matches AppError::AccessControlError(m2)
                && m2@ == m@,
            _ => r is InternalServerError,
        },
{
    match err {
        ServiceAppError::AccessControlError(msg) => AppError::AccessControlError(msg),
        other => AppError::InternalServerError {
            msg: "permission check failed".to_owned(),
            source_error: other,
        },
    }
}

/// A user found by a lookup of its identity has that identity.
proof fn lemma_found_by_id(docs: Seq<DocModel>, id: Seq<u8>, u: User)
    requires
        found_first(docs, id_filter(id), None, Some(u)),
    ensures
        u@.id == id,
{
    let f = id_filter(id);
    let i = first_match(docs, f);
    lemma_first_match_from(docs, f, 0);
    assert(clause_holds(docs[i], f[0].0, f[0].1));
}

/// The operations of a logged-in user.
pub struct UserFacade {
    access_control: AccessControl,
    user: User,
}

impl UserFacade {
    /// The user the facade acts for.
    pub closed spec fn user(&self) -> User {
        self.user
    }

    /// The permission checks held.
    pub closed spec fn access(&self) -> AccessControl {
        self.access_control
    }

    /// Loads the caller's user; one that does not exist is an
    /// `AccessControlError`.
    pub fn new<T: AuthInfo, D: DatabaseServiceTrait>(auth_info: &T, database_service: &D) -> (r:
        FacadeResult<UserFacade>)
        requires
            database_service.wf(),
        ensures
            r is Ok ==> r->Ok_0.user()@.id == auth_info.spec_user_id(),
            D::in_process() && first_match(
                database_service.docs(User::spec_collection_name()),
                id_filter(auth_info.spec_user_id()),
            ) == -1 ==> r is Err && r->Err_0 is AccessControlError,
    {
        let id = *auth_info.user_id();
        let access_control = match AccessControl::new(
            SmartDocumentReference::Id(id),
            database_service,
        ) {
            Ok(a) => a,
            Err(e) => {
                return Err(access_error(e));
            },
        };
        let mut user_service = UserService::new(SmartDocumentReference::Id(id));
        let user = match user_service.get(database_service) {
            Ok(u) => u,
            Err(ServiceAppError::DatabaseError(DatabaseError::DocumentDoesNotExist(_))) => {
                return Err(AppError::AccessControlError("User is not valid".to_owned()));
            },
            Err(other) => {
                return Err(
                    AppError::InternalServerError {
                        msg: "cannot load the user".to_owned(),
                        source_error: other,
                    },
                );
            },
        };
        proof {
            lemma_found_by_id(database_service.docs(User::spec_collection_name()), id@, user);
        }
        Ok(UserFacade { access_control, user })
    }

    /// The caller's public information; no token.
    pub fn get_info(&self) -> (r: LoggedUserInfoResponse)
        ensures
            r.token is None,
            r.user_id@ == hex_of(self.user()@.id),
            r.username@ == self.user()@.username,
            r.admin == self.user()@.admin,
    {
        LoggedUserInfoResponse {
            token: None,
            user_id: to_hex(self.user.get_id()),
            username: self.user.username().clone(),
            admin: self.user.admin(),
        }
    }

    /// Publishes a post by the caller, who must be a publisher, and returns
    /// its identity in hexadecimal.
    pub fn publish_post<D: DatabaseServiceTrait>(
        &mut self,
        database_service: &mut D,
        transaction: Option<D::Transaction>,
        title: String,
        content: String,
        creation_date: i64,
    ) -> (r: FacadeResult<String>)
        requires
            old(database_service).wf(),
        ensures
            final(database_service).wf(),
            r is Ok ==> final(database_service).docs(BlogPost::spec_collection_name()).len()
                == old(database_service).docs(BlogPost::spec_collection_name()).len() + 1,
            r is Err ==> forall|c: Seq<char>|
                (#[trigger] final(database_service).docs(c)) == old(database_service).docs(c),
            old(self).access().user() matches SmartDocumentReference::Document(u)
                && !u@.publisher ==> r is Err && r->Err_0 is AccessControlError,
    {
        match self.access_control.is_publisher_ref(&*database_service) {
            Ok(()) => {},
            Err(e) => {
                return Err(access_error(e));
            },
        }
        let blog_service: BlogService<D> = BlogService::new(transaction);
        let published = blog_service.publish_post(
            database_service,
            title,
            content,
            *self.user.get_id(),
            self.user.username().clone(),
            creation_date,
        );
        match published {
            Ok(post) => Ok(to_hex(post.get_id())),
            Err(ServiceAppError::InvalidRequest(msg)) => Err(AppError::InvalidRequest(msg)),
            Err(other) => Err(
                AppError::InternalServerError {
                    msg: "Error in building BlogPost document".to_owned(),
                    source_error: other,
                },
            ),
        }
    }

    /// Every post, or only those of `user_id`.
    pub fn get_posts<D: DatabaseServiceTrait>(&self, database_service: &D, user_id: Option<ObjectId>) -> (r:
        FacadeResult<Vec<BlogPost>>)
        requires
            database_service.wf(),
        ensures
            r is Ok ==> decoded_all(
                matching(
                    database_service.docs(BlogPost::spec_collection_name()),
                    posts_filter(user_id),
                ),
                r->Ok_0@,
            ),
    {
        let blog_service: BlogService<D> = BlogService::new(None);
        match blog_service.get_posts(database_service, user_id) {
            Ok(posts) => Ok(posts),
            Err(ServiceAppError::DoesNotExist(msg)) => Err(AppError::DoesNotExist(msg)),
            Err(other) => Err(
                AppError::InternalServerError {
                    msg: "Error in retrieving posts".to_owned(),
                    source_error: other,
                },
            ),
        }
    }
}

/// The operations of a platform admin.
pub struct AdminFacade {
    access_control: AccessControl,
}

impl AdminFacade {
    /// The permission checks held.
    pub closed spec fn access(&self) -> AccessControl {
        self.access_control
    }

    /// Admits the caller only if they are a platform admin; otherwise an
    /// `AccessControlError`.
    pub fn new<T: AuthInfo, D: DatabaseServiceTrait>(auth_info: &T, database_service: &D) -> (r:
        FacadeResult<AdminFacade>)
        requires
            database_service.wf(),
        ensures
            r is Ok ==> r->Ok_0.access().user() is Document
                && r->Ok_0.access().user()->Document_0@.admin,
    {
        let id = *auth_info.user_id();
        let access_control = match AccessControl::new(
            SmartDocumentReference::Id(id),
            database_service,
        ) {
            Ok(a) => a,
            Err(e) => {
                return Err(access_error(e));
            },
        };
        match access_control.is_platform_admin(database_service) {
            Ok(a) => Ok(AdminFacade { access_control: a }),
            Err(e) => Err(access_error(e)),
        }
    }

    /// Every user of the application, in order.
    pub fn get_users<D: DatabaseServiceTrait>(&self, database_service: &D) -> (r: FacadeResult<
        Vec<User>,
    >)
        requires
            database_service.wf(),
        ensures
            r is Ok ==> decoded_all(
                database_service.docs(User::spec_collection_name()),
                r->Ok_0@,
            ),
    {
        let all = Filter::new();
        let found = database_service.find_many::<User>(&all);
        proof {
            lemma_matching_everything(database_service.docs(User::spec_collection_name()), all@);
        }
        match found {
            Ok(users) => Ok(users),
            Err(e) => Err(
                AppError::InternalServerError {
                    msg: "Error in retrieving users from database".to_owned(),
                    source_error: ServiceAppError::DatabaseError(e),
                },
            ),
        }
    }
}

/// The empty filter selects every document, in order.
proof fn lemma_matching_everything(docs: Seq<DocModel>, f: FilterModel)
    requires
        f.len() == 0,
    ensures
        matching(docs, f) == docs,
{
    lemma_matching_prefix_all(docs, f, docs.len() as int);
    assert(docs.subrange(0, docs.len() as int) =~= docs);
}

proof fn lemma_matching_prefix_all(docs: Seq<DocModel>, f: FilterModel, n: int)
    requires
        f.len() == 0,
        0 <= n <= docs.len(),
    ensures
        matching_prefix(docs, f, n) == docs.subrange(0, n),
    decreases n,
{
    if n == 0 {
        assert(docs.subrange(0, 0) =~= Seq::<DocModel>::empty());
    } else {
        lemma_matching_prefix_all(docs, f, n - 1);
        assert(satisfies(docs[n - 1], f));
        assert(docs.subrange(0, n) =~= docs.subrange(0, n - 1).push(docs[n - 1]));
    }
}

} // verus!
