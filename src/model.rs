//! The entity kinds of the blog: users and blog posts, each with a builder
//! that checks its fields and stores it.
use vstd::prelude::*;
use crate::database::{DatabaseServiceTrait, id_unused, with_id};
use crate::document::{DatabaseDocumentTrait, DecoratedDatabaseDocumentTrait, FromDocument};
use crate::error::{DatabaseError, DatabaseResult};
use crate::fields::{get_bool, get_datetime, get_id, get_str};
use crate::query::id_key;
use crate::value::{
    DocModel, Document, ObjectId, Value, ValueModel, insert_entry, keys_unique, lemma_insert_entry,
    lookup,
};

verus! {

/// Model of a user.
pub struct UserModel {
    pub id: Seq<u8>,
    pub first_name: Seq<char>,
    pub last_name: Seq<char>,
    pub username: Seq<char>,
    pub password_hash: Seq<char>,
    pub admin: bool,
    pub publisher: bool,
}

/// A registered user, stored in the `user` collection.
#[derive(Debug)]
pub struct User {
    id: ObjectId,
    first_name: String,
    last_name: String,
    username: String,
    password_hash: String,
    admin: bool,
    publisher: bool,
}

impl View for User {
    type V = UserModel;

    closed spec fn view(&self) -> UserModel {
        UserModel {
            id: self.id@,
            first_name: self.first_name@,
            last_name: self.last_name@,
            username: self.username@,
            password_hash: self.password_hash@,
            admin: self.admin,
            publisher: self.publisher,
        }
    }
}

/// The stored form of a user's fields, without its identity.
pub open spec fn user_fields(
    first_name: Seq<char>,
    last_name: Seq<char>,
    username: Seq<char>,
    password_hash: Seq<char>,
    admin: bool,
    publisher: bool,
) -> DocModel {
    let d0 = Seq::<(Seq<char>, ValueModel)>::empty();
    let d1 = insert_entry(d0, "first_name"@, ValueModel::Str(first_name));
    let d2 = insert_entry(d1, "last_name"@, ValueModel::Str(last_name));
    let d3 = insert_entry(d2, "username"@, ValueModel::Str(username));
    let d4 = insert_entry(d3, "password_hash"@, ValueModel::Str(password_hash));
    let d5 = insert_entry(d4, "admin"@, ValueModel::Bool(admin));
    insert_entry(d5, "publisher"@, ValueModel::Bool(publisher))
}

/// The user that `d` reads as: every field present with the right kind.
pub open spec fn decode_user(d: DocModel) -> Option<UserModel> {
    match (
        lookup(d, id_key()),
        lookup(d, "first_name"@),
        lookup(d, "last_name"@),
        lookup(d, "username"@),
        lookup(d, "password_hash"@),
        lookup(d, "admin"@),
        lookup(d, "publisher"@),
    ) {
        (
            Some(ValueModel::Id(id)),
            Some(ValueModel::Str(first_name)),
            Some(ValueModel::Str(last_name)),
            Some(ValueModel::Str(username)),
            Some(ValueModel::Str(password_hash)),
            Some(ValueModel::Bool(admin)),
            Some(ValueModel::Bool(publisher)),
        ) => Some(
            UserModel { id, first_name, last_name, username, password_hash, admin, publisher },
        ),
        _ => None,
    }
}

impl FromDocument for User {
    open spec fn decode(d: DocModel) -> Option<UserModel> {
        decode_user(d)
    }

    fn from_document(d: &Document) -> (r: Result<User, DatabaseError>) {
        let id = get_id(d, "_id");
        proof {
            reveal_strlit("_id");
            assert("_id"@ =~= id_key());
        }
        let id = id?;
        let first_name = get_str(d, "first_name")?;
        let last_name = get_str(d, "last_name")?;
        let username = get_str(d, "username")?;
        let password_hash = get_str(d, "password_hash")?;
        let admin = get_bool(d, "admin")?;
        let publisher = get_bool(d, "publisher")?;
        Ok(User { id, first_name, last_name, username, password_hash, admin, publisher })
    }
}

impl DatabaseDocumentTrait for User {
    open spec fn spec_collection_name() -> Seq<char> {
        "user"@
    }

    open spec fn spec_id(&self) -> Seq<u8> {
        self@.id
    }

    fn collection_name() -> (r: &'static str) {
        "user"
    }

    fn get_id(&self) -> (r: &ObjectId) {
        &self.id
    }
}

impl DecoratedDatabaseDocumentTrait for User {

}

impl User {
    /// A copy of the user.
    pub fn duplicate(&self) -> (r: User)
        ensures
            r@ == self@,
    {
        User {
            id: ObjectId::from_bytes(self.id.bytes),
            first_name: self.first_name.clone(),
            last_name: self.last_name.clone(),
            username: self.username.clone(),
            password_hash: self.password_hash.clone(),
            admin: self.admin,
            publisher: self.publisher,
        }
    }

    pub fn first_name(&self) -> (r: &String)
        ensures
            r@ == self@.first_name,
    {
        &self.first_name
    }

    pub fn last_name(&self) -> (r: &String)
        ensures
            r@ == self@.last_name,
    {
        &self.last_name
    }

    pub fn username(&self) -> (r: &String)
        ensures
            r@ == self@.username,
    {
        &self.username
    }

    pub fn password_hash(&self) -> (r: &String)
        ensures
            r@ == self@.password_hash,
    {
        &self.password_hash
    }

    pub fn admin(&self) -> (r: bool)
        ensures
            r == self@.admin,
    {
        self.admin
    }

    pub fn publisher(&self) -> (r: bool)
        ensures
            r == self@.publisher,
    {
        self.publisher
    }
}

/// A user's stored fields, once given an identity, read back as that user.
pub proof fn lemma_user_fields_decode(
    id: Seq<u8>,
    first_name: Seq<char>,
    last_name: Seq<char>,
    username: Seq<char>,
    password_hash: Seq<char>,
    admin: bool,
    publisher: bool,
)
    ensures
        ({
            let d = user_fields(first_name, last_name, username, password_hash, admin, publisher);
            &&& keys_unique(d)
            &&& lookup(d, id_key()) is None
            &&& decode_user(with_id(d, id)) == Some(
                UserModel { id, first_name, last_name, username, password_hash, admin, publisher },
            )
        }),
{
    reveal_strlit("first_name");
    reveal_strlit("last_name");
    reveal_strlit("username");
    reveal_strlit("password_hash");
    reveal_strlit("admin");
    reveal_strlit("publisher");
    assert("last_name"@[0] != "publisher"@[0]);
    let d0 = Seq::<(Seq<char>, ValueModel)>::empty();
    let d1 = insert_entry(d0, "first_name"@, ValueModel::Str(first_name));
    let d2 = insert_entry(d1, "last_name"@, ValueModel::Str(last_name));
    let d3 = insert_entry(d2, "username"@, ValueModel::Str(username));
    let d4 = insert_entry(d3, "password_hash"@, ValueModel::Str(password_hash));
    let d5 = insert_entry(d4, "admin"@, ValueModel::Bool(admin));
    let d6 = insert_entry(d5, "publisher"@, ValueModel::Bool(publisher));
    assert(lookup(d0, id_key()) is None);
    lemma_insert_entry(d0, "first_name"@, ValueModel::Str(first_name));
    lemma_insert_entry(d1, "last_name"@, ValueModel::Str(last_name));
    lemma_insert_entry(d2, "username"@, ValueModel::Str(username));
    lemma_insert_entry(d3, "password_hash"@, ValueModel::Str(password_hash));
    lemma_insert_entry(d4, "admin"@, ValueModel::Bool(admin));
    lemma_insert_entry(d5, "publisher"@, ValueModel::Bool(publisher));
    lemma_insert_entry(d6, id_key(), ValueModel::Id(id));
    let d7 = with_id(d6, id);
    assert(keys_unique(d6));
    assert(lookup(d6, id_key()) is None);
    assert(lookup(d7, id_key()) == Some(ValueModel::Id(id)));
    let fname = "first_name"@;
    assert(fname != "last_name"@);
    assert(fname[0] != "username"@[0]);
    assert(fname != "password_hash"@);
    assert(fname != "admin"@);
    assert(fname != "publisher"@);
    assert(lookup(d1, fname) == Some(ValueModel::Str(first_name)));
    assert(lookup(d2, fname) == Some(ValueModel::Str(first_name)));
    assert(lookup(d3, fname) == Some(ValueModel::Str(first_name)));
    assert(lookup(d4, fname) == Some(ValueModel::Str(first_name)));
    assert(lookup(d5, fname) == Some(ValueModel::Str(first_name)));
    assert(lookup(d6, fname) == Some(ValueModel::Str(first_name)));
    assert(lookup(d7, "first_name"@) == Some(ValueModel::Str(first_name)));
    let uname = "username"@;
    assert(uname[0] != "password_hash"@[0]);
    assert(uname != "admin"@);
    assert(uname != "publisher"@);
    assert(lookup(d3, uname) == Some(ValueModel::Str(username)));
    assert(lookup(d4, uname) == Some(ValueModel::Str(username)));
    assert(lookup(d5, uname) == Some(ValueModel::Str(username)));
    assert(lookup(d6, uname) == Some(ValueModel::Str(username)));
    assert(lookup(d7, "last_name"@) == Some(ValueModel::Str(last_name)));
    assert(lookup(d7, "username"@) == Some(ValueModel::Str(username)));
    let pname = "password_hash"@;
    assert(pname[0] != "admin"@[0]);
    assert(pname[1] != "publisher"@[1]);
    assert(lookup(d4, pname) == Some(ValueModel::Str(password_hash)));
    assert(lookup(d5, pname) == Some(ValueModel::Str(password_hash)));
    assert(lookup(d6, pname) == Some(ValueModel::Str(password_hash)));
    assert(lookup(d7, "password_hash"@) == Some(ValueModel::Str(password_hash)));
    assert(lookup(d7, "admin"@) == Some(ValueModel::Bool(admin)));
    assert(lookup(d7, "publisher"@) == Some(ValueModel::Bool(publisher)));
}

/// Model of a user builder: the fields given so far.
pub struct UserDraft {
    pub first_name: Option<Seq<char>>,
    pub last_name: Option<Seq<char>>,
    pub username: Option<Seq<char>>,
    pub password_hash: Option<Seq<char>>,
    pub admin: Option<bool>,
    pub publisher: Option<bool>,
}

/// The first field, in declaration order, that the draft lacks.
pub open spec fn user_first_missing(d: UserDraft) -> Option<Seq<char>> {
    if d.first_name is None {
        Some("first_name"@)
    } else if d.last_name is None {
        Some("last_name"@)
    } else if d.username is None {
        Some("username"@)
    } else if d.password_hash is None {
        Some("password_hash"@)
    } else if d.admin is None {
        Some("admin"@)
    } else if d.publisher is None {
        Some("publisher"@)
    } else {
        None
    }
}

/// The stored form of a complete draft.
pub open spec fn user_payload(d: UserDraft) -> DocModel {
    user_fields(
        d.first_name->0,
        d.last_name->0,
        d.username->0,
        d.password_hash->0,
        d.admin->0,
        d.publisher->0,
    )
}

/// Collects a user's fields, then checks and stores the user.
#[derive(Debug)]
pub struct UserBuilder {
    first_name: Option<String>,
    last_name: Option<String>,
    username: Option<String>,
    password_hash: Option<String>,
    admin: Option<bool>,
    publisher: Option<bool>,
}

/// The model of an optional string.
pub open spec fn opt_view(o: Option<String>) -> Option<Seq<char>> {
    match o {
        Some(s) => Some(s@),
        None => None,
    }
}

impl View for UserBuilder {
    type V = UserDraft;

    closed spec fn view(&self) -> UserDraft {
        UserDraft {
            first_name: opt_view(self.first_name),
            last_name: opt_view(self.last_name),
            username: opt_view(self.username),
            password_hash: opt_view(self.password_hash),
            admin: self.admin,
            publisher: self.publisher,
        }
    }
}

impl UserBuilder {
    /// A builder with no field set.
    pub fn new() -> (r: UserBuilder)
        ensures
            r@ == (UserDraft {
                first_name: None,
                last_name: None,
                username: None,
                password_hash: None,
                admin: None,
                publisher: None,
            }),
    {
        UserBuilder {
            first_name: None,
            last_name: None,
            username: None,
            password_hash: None,
            admin: None,
            publisher: None,
        }
    }

    pub fn first_name(self, value: String) -> (r: UserBuilder)
        ensures
            r@ == (UserDraft { first_name: Some(value@), ..self@ }),
    {
        UserBuilder { first_name: Some(value), ..self }
    }

    pub fn last_name(self, value: String) -> (r: UserBuilder)
        ensures
            r@ == (UserDraft { last_name: Some(value@), ..self@ }),
    {
        UserBuilder { last_name: Some(value), ..self }
    }

    pub fn username(self, value: String) -> (r: UserBuilder)
        ensures
            r@ == (UserDraft { username: Some(value@), ..self@ }),
    {
        UserBuilder { username: Some(value), ..self }
    }

    pub fn password_hash(self, value: String) -> (r: UserBuilder)
        ensures
            r@ == (UserDraft { password_hash: Some(value@), ..self@ }),
    {
        UserBuilder { password_hash: Some(value), ..self }
    }

    pub fn admin(self, value: bool) -> (r: UserBuilder)
        ensures
            r@ == (UserDraft { admin: Some(value), ..self@ }),
    {
        UserBuilder { admin: Some(value), ..self }
    }

    pub fn publisher(self, value: bool) -> (r: UserBuilder)
        ensures
            r@ == (UserDraft { publisher: Some(value), ..self@ }),
    {
        UserBuilder { publisher: Some(value), ..self }
    }

    /// Checks that every field is set, failing on the first missing one
    /// with `DocumentNotValid` naming it and storing nothing; then stores the
    /// user under a fresh identity and returns it.
    pub fn build<S: DatabaseServiceTrait>(
        self,
        database_service: &mut S,
        transaction: Option<&S::Transaction>,
    ) -> (r: DatabaseResult<User>)
        requires
            old(database_service).wf(),
        ensures
            final(database_service).wf(),
            match user_first_missing(self@) {
                Some(field) => {
                    &&& r matches Err(DatabaseError::DocumentNotValid(m)) && m@ == field
                    &&& forall|c: Seq<char>|
                        (#[trigger] final(database_service).docs(c)) == old(database_service).docs(c)
                },
                None => match r {
                    Ok(u) => {
                        let before = old(database_service).docs(User::spec_collection_name());
                        let payload = user_payload(self@);
                        &&& u@ == UserModel {
                            id: u@.id,
                            first_name: self@.first_name->0,
                            last_name: self@.last_name->0,
                            username: self@.username->0,
                            password_hash: self@.password_hash->0,
                            admin: self@.admin->0,
                            publisher: self@.publisher->0,
                        }
                        &&& id_unused(before, u@.id)
                        &&& final(database_service).docs(User::spec_collection_name()) == before.push(
                            with_id(payload, u@.id),
                        )
                        &&& User::decode(with_id(payload, u@.id)) == Some(u@)
                        &&& forall|c: Seq<char>|
                            c != User::spec_collection_name() ==> (#[trigger] final(database_service).docs(c))
                                == old(database_service).docs(c)
                    },
                    Err(e) => {
                        &&& forall|c: Seq<char>|
                            (#[trigger] final(database_service).docs(c)) == old(
                                database_service,
                            ).docs(c)
                        &&& S::in_process() ==> e is InvalidObjectId
                    },
                },
            },
    {
        proof {
            reveal_strlit("first_name");
            reveal_strlit("last_name");
            reveal_strlit("username");
            reveal_strlit("password_hash");
            reveal_strlit("admin");
            reveal_strlit("publisher");
        }
        let first_name = match self.first_name {
            Some(v) => v,
            None => return Err(DatabaseError::DocumentNotValid("first_name".to_owned())),
        };
        let last_name = match self.last_name {
            Some(v) => v,
            None => return Err(DatabaseError::DocumentNotValid("last_name".to_owned())),
        };
        let username = match self.username {
            Some(v) => v,
            None => return Err(DatabaseError::DocumentNotValid("username".to_owned())),
        };
        let password_hash = match self.password_hash {
            Some(v) => v,
            None => return Err(DatabaseError::DocumentNotValid("password_hash".to_owned())),
        };
        let admin = match self.admin {
            Some(v) => v,
            None => return Err(DatabaseError::DocumentNotValid("admin".to_owned())),
        };
        let publisher = match self.publisher {
            Some(v) => v,
            None => return Err(DatabaseError::DocumentNotValid("publisher".to_owned())),
        };
        proof {
            lemma_user_fields_decode(
                Seq::empty(),
                first_name@,
                last_name@,
                username@,
                password_hash@,
                admin,
                publisher,
            );
        }
        let payload = Document::new().with("first_name".to_owned(), Value::Str(first_name.clone())).with(
            "last_name".to_owned(),
            Value::Str(last_name.clone()),
        ).with("username".to_owned(), Value::Str(username.clone())).with(
            "password_hash".to_owned(),
            Value::Str(password_hash.clone()),
        ).with("admin".to_owned(), Value::Bool(admin)).with(
            "publisher".to_owned(),
            Value::Bool(publisher),
        );
        assert(payload@ == user_payload(self@));
        let id = database_service.insert_one::<User>(payload, transaction)?;
        proof {
            lemma_user_fields_decode(
                id@,
                first_name@,
                last_name@,
                username@,
                password_hash@,
                admin,
                publisher,
            );
        }
        Ok(User { id, first_name, last_name, username, password_hash, admin, publisher })
    }
}

/// Model of a blog post.
pub struct BlogPostModel {
    pub id: Seq<u8>,
    pub title: Seq<char>,
    pub content: Seq<char>,
    pub creation_date: int,
    pub user_id: Seq<u8>,
    pub username: Seq<char>,
}

/// A published blog post, stored in the `blog_post` collection. Its creation
/// date is in milliseconds since the Unix epoch.
#[derive(Debug)]
pub struct BlogPost {
    id: ObjectId,
    title: String,
    content: String,
    creation_date: i64,
    user_id: ObjectId,
    username: String,
}

impl View for BlogPost {
    type V = BlogPostModel;

    closed spec fn view(&self) -> BlogPostModel {
        BlogPostModel {
            id: self.id@,
            title: self.title@,
            content: self.content@,
            creation_date: self.creation_date as int,
            user_id: self.user_id@,
            username: self.username@,
        }
    }
}

/// The stored form of a blog post's fields, without its identity.
pub open spec fn blog_post_fields(
    title: Seq<char>,
    content: Seq<char>,
    creation_date: int,
    user_id: Seq<u8>,
    username: Seq<char>,
) -> DocModel {
    let d0 = Seq::<(Seq<char>, ValueModel)>::empty();
    let d1 = insert_entry(d0, "title"@, ValueModel::Str(title));
    let d2 = insert_entry(d1, "content"@, ValueModel::Str(content));
    let d3 = insert_entry(d2, "creation_date"@, ValueModel::DateTime(creation_date));
    let d4 = insert_entry(d3, "user_id"@, ValueModel::Id(user_id));
    insert_entry(d4, "username"@, ValueModel::Str(username))
}

/// The blog post that `d` reads as: every field present with the right kind.
pub open spec fn decode_blog_post(d: DocModel) -> Option<BlogPostModel> {
    match (
        lookup(d, id_key()),
        lookup(d, "title"@),
        lookup(d, "content"@),
        lookup(d, "creation_date"@),
        lookup(d, "user_id"@),
        lookup(d, "username"@),
    ) {
        (
            Some(ValueModel::Id(id)),
            Some(ValueModel::Str(title)),
            Some(ValueModel::Str(content)),
            Some(ValueModel::DateTime(creation_date)),
            Some(ValueModel::Id(user_id)),
            Some(ValueModel::Str(username)),
        ) => Some(BlogPostModel { id, title, content, creation_date, user_id, username }),
        _ => None,
    }
}

impl FromDocument for BlogPost {
    open spec fn decode(d: DocModel) -> Option<BlogPostModel> {
        decode_blog_post(d)
    }

    fn from_document(d: &Document) -> (r: Result<BlogPost, DatabaseError>) {
        let id = get_id(d, "_id");
        proof {
            reveal_strlit("_id");
            assert("_id"@ =~= id_key());
        }
        let id = id?;
        let title = get_str(d, "title")?;
        let content = get_str(d, "content")?;
        let creation_date = get_datetime(d, "creation_date")?;
        let user_id = get_id(d, "user_id")?;
        let username = get_str(d, "username")?;
        Ok(BlogPost { id, title, content, creation_date, user_id, username })
    }
}

impl DatabaseDocumentTrait for BlogPost {
    open spec fn spec_collection_name() -> Seq<char> {
        "blog_post"@
    }

    open spec fn spec_id(&self) -> Seq<u8> {
        self@.id
    }

    fn collection_name() -> (r: &'static str) {
        "blog_post"
    }

    fn get_id(&self) -> (r: &ObjectId) {
        &self.id
    }
}

impl DecoratedDatabaseDocumentTrait for BlogPost {

}

impl BlogPost {
    pub fn title(&self) -> (r: &String)
        ensures
            r@ == self@.title,
    {
        &self.title
    }

    pub fn content(&self) -> (r: &String)
        ensures
            r@ == self@.content,
    {
        &self.content
    }

    pub fn creation_date(&self) -> (r: i64)
        ensures
            r as int == self@.creation_date,
    {
        self.creation_date
    }

    pub fn user_id(&self) -> (r: &ObjectId)
        ensures
            r@ == self@.user_id,
    {
        &self.user_id
    }

    pub fn username(&self) -> (r: &String)
        ensures
            r@ == self@.username,
    {
        &self.username
    }
}

/// A blog post's stored fields, once given an identity, read back as that
/// blog post.
pub proof fn lemma_blog_post_fields_decode(
    id: Seq<u8>,
    title: Seq<char>,
    content: Seq<char>,
    creation_date: int,
    user_id: Seq<u8>,
    username: Seq<char>,
)
    ensures
        ({
            let d = blog_post_fields(title, content, creation_date, user_id, username);
            &&& keys_unique(d)
            &&& lookup(d, id_key()) is None
            &&& decode_blog_post(with_id(d, id)) == Some(
                BlogPostModel { id, title, content, creation_date, user_id, username },
            )
        }),
{
    reveal_strlit("title");
    reveal_strlit("content");
    reveal_strlit("creation_date");
    reveal_strlit("user_id");
    reveal_strlit("username");
    let d0 = Seq::<(Seq<char>, ValueModel)>::empty();
    let d1 = insert_entry(d0, "title"@, ValueModel::Str(title));
    let d2 = insert_entry(d1, "content"@, ValueModel::Str(content));
    let d3 = insert_entry(d2, "creation_date"@, ValueModel::DateTime(creation_date));
    let d4 = insert_entry(d3, "user_id"@, ValueModel::Id(user_id));
    let d5 = insert_entry(d4, "username"@, ValueModel::Str(username));
    assert(lookup(d0, id_key()) is None);
    lemma_insert_entry(d0, "title"@, ValueModel::Str(title));
    lemma_insert_entry(d1, "content"@, ValueModel::Str(content));
    lemma_insert_entry(d2, "creation_date"@, ValueModel::DateTime(creation_date));
    lemma_insert_entry(d3, "user_id"@, ValueModel::Id(user_id));
    lemma_insert_entry(d4, "username"@, ValueModel::Str(username));
    lemma_insert_entry(d5, id_key(), ValueModel::Id(id));
    let d6 = with_id(d5, id);
    let t = "title"@;
    let c = "content"@;
    let cd = "creation_date"@;
    let ui = "user_id"@;
    let un = "username"@;
    assert(t[0] != c[0] && t[0] != cd[0] && t[0] != ui[0] && t[0] != un[0] && t[0] != id_key()[0]);
    assert(c[1] != cd[1] && c[0] != ui[0] && c[0] != un[0] && c[0] != id_key()[0]);
    assert(cd[0] != ui[0] && cd[0] != un[0] && cd[0] != id_key()[0]);
    assert(ui[4] != un[4] && ui[0] != id_key()[0]);
    assert(un[0] != id_key()[0]);
    assert(t != c && t != cd && t != ui && t != un && t != id_key());
    assert(c != cd && c != ui && c != un && c != id_key());
    assert(cd != ui && cd != un && cd != id_key());
    assert(ui != un && ui != id_key() && un != id_key());
    assert(lookup(d5, t) == Some(ValueModel::Str(title)));
    assert(lookup(d5, c) == Some(ValueModel::Str(content)));
    assert(lookup(d5, cd) == Some(ValueModel::DateTime(creation_date)));
    assert(lookup(d5, ui) == Some(ValueModel::Id(user_id)));
    assert(lookup(d6, t) == Some(ValueModel::Str(title)));
    assert(lookup(d6, c) == Some(ValueModel::Str(content)));
    assert(lookup(d6, cd) == Some(ValueModel::DateTime(creation_date)));
    assert(lookup(d6, ui) == Some(ValueModel::Id(user_id)));
    assert(lookup(d6, un) == Some(ValueModel::Str(username)));
    assert(lookup(d6, id_key()) == Some(ValueModel::Id(id)));
}

/// Model of a blog post builder: the fields given so far.
pub struct BlogPostDraft {
    pub title: Option<Seq<char>>,
    pub content: Option<Seq<char>>,
    pub creation_date: Option<int>,
    pub user_id: Option<Seq<u8>>,
    pub username: Option<Seq<char>>,
}

/// The first field, in declaration order, that the draft lacks.
pub open spec fn blog_post_first_missing(d: BlogPostDraft) -> Option<Seq<char>> {
    if d.title is None {
        Some("title"@)
    } else if d.content is None {
        Some("content"@)
    } else if d.creation_date is None {
        Some("creation_date"@)
    } else if d.user_id is None {
        Some("user_id"@)
    } else if d.username is None {
        Some("username"@)
    } else {
        None
    }
}

/// The stored form of a complete draft.
pub open spec fn blog_post_payload(d: BlogPostDraft) -> DocModel {
    blog_post_fields(
        d.title->0,
        d.content->0,
        d.creation_date->0,
        d.user_id->0,
        d.username->0,
    )
}

/// Collects a blog post's fields, then checks and stores the post.
#[derive(Debug)]
pub struct BlogPostBuilder {
    title: Option<String>,
    content: Option<String>,
    creation_date: Option<i64>,
    user_id: Option<ObjectId>,
    username: Option<String>,
}

impl View for BlogPostBuilder {
    type V = BlogPostDraft;

    closed spec fn view(&self) -> BlogPostDraft {
        BlogPostDraft {
            title: opt_view(self.title),
            content: opt_view(self.content),
            creation_date: match self.creation_date {
                Some(t) => Some(t as int),
                None => None,
            },
            user_id: match self.user_id {
                Some(u) => Some(u@),
                None => None,
            },
            username: opt_view(self.username),
        }
    }
}

impl BlogPostBuilder {
    /// A builder with no field set.
    pub fn new() -> (r: BlogPostBuilder)
        ensures
            r@ == (BlogPostDraft {
                title: None,
                content: None,
                creation_date: None,
                user_id: None,
                username: None,
            }),
    {
        BlogPostBuilder {
            title: None,
            content: None,
            creation_date: None,
            user_id: None,
            username: None,
        }
    }

    pub fn title(self, value: String) -> (r: BlogPostBuilder)
        ensures
            r@ == (BlogPostDraft { title: Some(value@), ..self@ }),
    {
        BlogPostBuilder { title: Some(value), ..self }
    }

    pub fn content(self, value: String) -> (r: BlogPostBuilder)
        ensures
            r@ == (BlogPostDraft { content: Some(value@), ..self@ }),
    {
        BlogPostBuilder { content: Some(value), ..self }
    }

    pub fn creation_date(self, value: i64) -> (r: BlogPostBuilder)
        ensures
            r@ == (BlogPostDraft { creation_date: Some(value as int), ..self@ }),
    {
        BlogPostBuilder { creation_date: Some(value), ..self }
    }

    pub fn user_id(self, value: ObjectId) -> (r: BlogPostBuilder)
        ensures
            r@ == (BlogPostDraft { user_id: Some(value@), ..self@ }),
    {
        BlogPostBuilder { user_id: Some(value), ..self }
    }

    pub fn username(self, value: String) -> (r: BlogPostBuilder)
        ensures
            r@ == (BlogPostDraft { username: Some(value@), ..self@ }),
    {
        BlogPostBuilder { username: Some(value), ..self }
    }

    /// Checks that every field is set, failing on the first missing one
    /// with `DocumentNotValid` naming it and storing nothing; then stores the
    /// post under a fresh identity and returns it.
    pub fn build<S: DatabaseServiceTrait>(
        self,
        database_service: &mut S,
        transaction: Option<&S::Transaction>,
    ) -> (r: DatabaseResult<BlogPost>)
        requires
            old(database_service).wf(),
        ensures
            final(database_service).wf(),
            match blog_post_first_missing(self@) {
                Some(field) => {
                    &&& r matches Err(DatabaseError::DocumentNotValid(m)) && m@ == field
                    &&& forall|c: Seq<char>|
                        (#[trigger] final(database_service).docs(c)) == old(database_service).docs(c)
                },
                None => match r {
                    Ok(p) => {
                        let before = old(database_service).docs(BlogPost::spec_collection_name());
                        let payload = blog_post_payload(self@);
                        &&& p@ == BlogPostModel {
                            id: p@.id,
                            title: self@.title->0,
                            content: self@.content->0,
                            creation_date: self@.creation_date->0,
                            user_id: self@.user_id->0,
                            username: self@.username->0,
                        }
                        &&& id_unused(before, p@.id)
                        &&& final(database_service).docs(BlogPost::spec_collection_name())
                            == before.push(with_id(payload, p@.id))
                        &&& BlogPost::decode(with_id(payload, p@.id)) == Some(p@)
                        &&& forall|c: Seq<char>|
                            c != BlogPost::spec_collection_name() ==> (#[trigger] final(database_service).docs(c))
                                == old(database_service).docs(c)
                    },
                    Err(e) => {
                        &&& forall|c: Seq<char>|
                            (#[trigger] final(database_service).docs(c)) == old(
                                database_service,
                            ).docs(c)
                        &&& S::in_process() ==> e is InvalidObjectId
                    },
                },
            },
    {
        proof {
            reveal_strlit("title");
            reveal_strlit("content");
            reveal_strlit("creation_date");
            reveal_strlit("user_id");
            reveal_strlit("username");
        }
        let title = match self.title {
            Some(v) => v,
            None => return Err(DatabaseError::DocumentNotValid("title".to_owned())),
        };
        let content = match self.content {
            Some(v) => v,
            None => return Err(DatabaseError::DocumentNotValid("content".to_owned())),
        };
        let creation_date = match self.creation_date {
            Some(v) => v,
            None => return Err(DatabaseError::DocumentNotValid("creation_date".to_owned())),
        };
        let user_id = match self.user_id {
            Some(v) => v,
            None => return Err(DatabaseError::DocumentNotValid("user_id".to_owned())),
        };
        let username = match self.username {
            Some(v) => v,
            None => return Err(DatabaseError::DocumentNotValid("username".to_owned())),
        };
        proof {
            lemma_blog_post_fields_decode(
                Seq::empty(),
                title@,
                content@,
                creation_date as int,
                user_id@,
                username@,
            );
        }
        let payload = Document::new().with("title".to_owned(), Value::Str(title.clone())).with(
            "content".to_owned(),
            Value::Str(content.clone()),
        ).with("creation_date".to_owned(), Value::DateTime(creation_date)).with(
            "user_id".to_owned(),
            Value::Id(ObjectId::from_bytes(user_id.bytes)),
        ).with("username".to_owned(), Value::Str(username.clone()));
        assert(payload@ == blog_post_payload(self@));
        let id = database_service.insert_one::<BlogPost>(payload, transaction)?;
        proof {
            lemma_blog_post_fields_decode(
                id@,
                title@,
                content@,
                creation_date as int,
                user_id@,
                username@,
            );
        }
        Ok(BlogPost { id, title, content, creation_date, user_id, username })
    }
}

} // verus!
