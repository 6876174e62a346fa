use vstd::prelude::*;

use crate::client::TestClient;
use crate::document::{
    doc_arrays, doc_keys, doc_str_arrays, doc_strings, extend_document, insert_array, insert_str,
    insert_str_array, keys_after_insert, keys_after_insert_all, new_document,
};
use crate::outcome::{
    accept_benign, failure_of, tolerated, CommandOutcome, FixtureError, NAMESPACE_NOT_FOUND,
    USER_NOT_FOUND,
};

verus! {

/// A BSON value, carried opaquely (role descriptions are passed through as given).
#[verifier::external_type_specification]
#[verifier::external_body]
pub struct ExBson(bson::Bson);

/// Relies on the derived `Clone` of bson::Bson: a clone is the same value.
pub assume_specification[ <bson::Bson as Clone>::clone ](b: &bson::Bson) -> (r: bson::Bson)
    ensures
        r == *b,
;

/// Authentication mechanisms a user can be created with.
#[derive(Clone, Copy, Debug, PartialEq, Eq, Structural)]
pub enum AuthMechanism {
    Gssapi,
    ScramSha1,
    ScramSha256,
    MongoDbCr,
    MongoDbX509,
    Plain,
    MongoDbAws,
}

/// Wire name of a mechanism.
pub open spec fn mechanism_name(m: AuthMechanism) -> Seq<char> {
    match m {
        AuthMechanism::Gssapi => "GSSAPI"@,
        AuthMechanism::ScramSha1 => "SCRAM-SHA-1"@,
        AuthMechanism::ScramSha256 => "SCRAM-SHA-256"@,
        AuthMechanism::MongoDbCr => "MONGODB-CR"@,
        AuthMechanism::MongoDbX509 => "MONGODB-X509"@,
        AuthMechanism::Plain => "PLAIN"@,
        AuthMechanism::MongoDbAws => "MONGODB-AWS"@,
    }
}

impl AuthMechanism {
    pub fn as_str(&self) -> (r: String)
        ensures
            r@ == mechanism_name(*self),
    {
        match self {
            AuthMechanism::Gssapi => String::from_str("GSSAPI"),
            AuthMechanism::ScramSha1 => String::from_str("SCRAM-SHA-1"),
            AuthMechanism::ScramSha256 => String::from_str("SCRAM-SHA-256"),
            AuthMechanism::MongoDbCr => String::from_str("MONGODB-CR"),
            AuthMechanism::MongoDbX509 => String::from_str("MONGODB-X509"),
            AuthMechanism::Plain => String::from_str("PLAIN"),
            AuthMechanism::MongoDbAws => String::from_str("MONGODB-AWS"),
        }
    }
}

fn clone_values(values: &[bson::Bson]) -> (r: Vec<bson::Bson>)
    ensures
        r@ == values@,
{
    let mut out: Vec<bson::Bson> = Vec::new();
    let mut i: usize = 0;
    while i < values.len()
        invariant
            i <= values@.len(),
            out@ == values@.take(i as int),
        decreases values@.len() - i,
    {
        out.push(values[i].clone());
        i = i + 1;
        assert(out@ =~= values@.take(i as int));
    }
    assert(values@.take(values@.len() as int) =~= values@);
    out
}

/// Command that creates `user` in database `db`. `mechanisms` is absent when
/// the field is not to be sent.
#[derive(Debug)]
pub struct CreateUserCommand {
    pub user: String,
    pub pwd: Option<String>,
    pub roles: Vec<bson::Bson>,
    pub mechanisms: Option<Vec<AuthMechanism>>,
    pub db: String,
}

/// Command that drops `user` from database `db`.
#[derive(Clone, Debug)]
pub struct DropUserCommand {
    pub user: String,
    pub db: String,
}

/// Command that drops collection `coll` of database `db`.
#[derive(Clone, Debug)]
pub struct DropCollectionCommand {
    pub db: String,
    pub coll: String,
}

/// Command that creates collection `coll` of database `db`.
#[derive(Clone, Debug)]
pub struct CreateCollectionCommand {
    pub db: String,
    pub coll: String,
    /// Further fields of the command: the collection's options.
    pub options: Option<bson::Document>,
}

pub open spec fn admin_db() -> Seq<char> {
    seq!['a', 'd', 'm', 'i', 'n']
}

/// The database named `db`, or the administrative one.
pub open spec fn db_or_admin(db: Option<&str>) -> Seq<char> {
    match db {
        Some(d) => d@,
        None => admin_db(),
    }
}

fn owned_db(db: Option<&str>) -> (r: String)
    ensures
        r@ == db_or_admin(db),
{
    match db {
        Some(d) => String::from_str(d),
        None => {
            let r = String::from_str("admin");
            proof {
                reveal_strlit("admin");
                assert(r@ =~= admin_db());
            }
            r
        },
    }
}

/// `c` creates `user` with `pwd` and `roles` in `db`, and lists `mechanisms`
/// exactly when the server is 4.0 or newer and some were asked for.
pub open spec fn creates_user(
    client: TestClient,
    c: CreateUserCommand,
    user: &str,
    pwd: Option<&str>,
    roles: &[bson::Bson],
    mechanisms: &[AuthMechanism],
    db: Option<&str>,
) -> bool {
    &&& c.user@ == user@
    &&& c.pwd is Some <==> pwd is Some
    &&& c.pwd matches Some(p) ==> p@ == pwd->Some_0@
    &&& c.roles@ == roles@
    &&& c.mechanisms is Some <==> (client.version_cmp(4, 0) >= 0 && mechanisms@.len() > 0)
    &&& c.mechanisms matches Some(m) ==> m@ == mechanisms@
    &&& c.db@ == db_or_admin(db)
}

/// Keys of the user-creation document: the password and the mechanisms
/// only where the command has them.
pub open spec fn create_user_keys(c: CreateUserCommand) -> Seq<Seq<char>> {
    let base = seq!["createUser"@, "roles"@];
    let with_pwd = if c.pwd is Some {
        base.push("pwd"@)
    } else {
        base
    };
    if c.mechanisms is Some {
        with_pwd.push("mechanisms"@)
    } else {
        with_pwd
    }
}

/// String entries of the user-creation document.
pub open spec fn create_user_strings(c: CreateUserCommand) -> Map<Seq<char>, Seq<char>> {
    let base = Map::empty().insert("createUser"@, c.user@);
    match c.pwd {
        Some(p) => base.insert("pwd"@, p@),
        None => base,
    }
}

proof fn lemma_user_keys_distinct()
    ensures
        "createUser"@.len() > 0 && "createUser"@[0] == 'c',
        "roles"@.len() > 0 && "roles"@[0] == 'r',
        "pwd"@.len() > 0 && "pwd"@[0] == 'p',
        "mechanisms"@.len() > 0 && "mechanisms"@[0] == 'm',
{
    reveal_strlit("createUser");
    reveal_strlit("roles");
    reveal_strlit("pwd");
    reveal_strlit("mechanisms");
}

impl CreateUserCommand {
    /// The command as a document.
    pub fn to_document(&self) -> (r: bson::Document)
        ensures
            doc_keys(r) == create_user_keys(*self),
            doc_strings(r) == create_user_strings(*self),
            doc_arrays(r).contains_key("roles"@),
            doc_arrays(r)["roles"@] == self.roles@,
            self.mechanisms matches Some(ms) ==> doc_str_arrays(r).contains_key("mechanisms"@)
                && doc_str_arrays(r)["mechanisms"@] == ms@.map_values(|m: AuthMechanism| mechanism_name(m)),
    {
        proof {
            lemma_user_keys_distinct();
        }
        let mut d = new_document();
        insert_str(&mut d, "createUser", self.user.as_str());
        assert(doc_keys(d) =~= seq!["createUser"@]);
        assert(doc_keys(d)[0] != "roles"@);
        insert_array(&mut d, "roles", clone_values(self.roles.as_slice()));
        assert(doc_keys(d) =~= seq!["createUser"@, "roles"@]);
        assert(doc_strings(d) =~= Map::empty().insert("createUser"@, self.user@));
        assert(doc_arrays(d).contains_key("roles"@) && doc_arrays(d)["roles"@] == self.roles@);
        if let Some(p) = &self.pwd {
            assert(doc_keys(d)[0] != "pwd"@ && doc_keys(d)[1] != "pwd"@);
            insert_str(&mut d, "pwd", p.as_str());
            assert("pwd"@ != "roles"@);
        }
        assert(doc_arrays(d).contains_key("roles"@) && doc_arrays(d)["roles"@] == self.roles@);
        assert(forall|k: int| 0 <= k < doc_keys(d).len() ==> doc_keys(d)[k][0] != 'm');
        assert(doc_strings(d) =~= create_user_strings(*self));
        if let Some(ms) = &self.mechanisms {
            let mut names: Vec<String> = Vec::new();
            let mut i: usize = 0;
            while i < ms.len()
                invariant
                    i <= ms@.len(),
                    names@.len() == i,
                    forall|j: int| 0 <= j < i ==> #[trigger] names@[j]@ == mechanism_name(ms@[j]),
                decreases ms@.len() - i,
            {
                names.push(ms[i].as_str());
                i = i + 1;
            }
            let ghost before = doc_strings(d);
            let ghost arrays_before = doc_arrays(d);
            insert_str_array(&mut d, "mechanisms", names);
            assert(names@.map_values(|s: String| s@) =~= ms@.map_values(
                |m: AuthMechanism| mechanism_name(m),
            ));
            assert("mechanisms"@ != "roles"@);
            assert(doc_arrays(d).remove("mechanisms"@).contains_key("roles"@));
            assert(arrays_before.remove("mechanisms"@)["roles"@] == self.roles@);
            assert(!before.dom().contains("mechanisms"@)) by {
                assert("mechanisms"@ != "createUser"@);
                assert("mechanisms"@ != "pwd"@);
            }
            assert(doc_strings(d) =~= before);
        }
        assert(doc_keys(d) =~= create_user_keys(*self));
        d
    }
}

impl DropUserCommand {
    /// The command as a document.
    pub fn to_document(&self) -> (r: bson::Document)
        ensures
            doc_keys(r) == seq!["dropUser"@],
            doc_strings(r) == Map::empty().insert("dropUser"@, self.user@),
    {
        let mut d = new_document();
        insert_str(&mut d, "dropUser", self.user.as_str());
        assert(doc_keys(d) =~= seq!["dropUser"@]);
        d
    }
}

impl DropCollectionCommand {
    /// The command as a document.
    pub fn to_document(&self) -> (r: bson::Document)
        ensures
            doc_keys(r) == seq!["drop"@],
            doc_strings(r) == Map::empty().insert("drop"@, self.coll@),
    {
        let mut d = new_document();
        insert_str(&mut d, "drop", self.coll.as_str());
        assert(doc_keys(d) =~= seq!["drop"@]);
        d
    }
}

/// Keys of the collection-creation document: `create` first, then those of
/// the options.
pub open spec fn create_collection_keys(c: CreateCollectionCommand) -> Seq<Seq<char>> {
    match c.options {
        Some(o) => keys_after_insert_all(seq!["create"@], doc_keys(o)),
        None => seq!["create"@],
    }
}

/// String entries of the collection-creation document.
pub open spec fn create_collection_strings(c: CreateCollectionCommand) -> Map<Seq<char>, Seq<char>> {
    let base = Map::empty().insert("create"@, c.coll@);
    match c.options {
        Some(o) => base.remove_keys(doc_keys(o).to_set()).union_prefer_right(doc_strings(o)),
        None => base,
    }
}

impl CreateCollectionCommand {
    /// The command as a document: the collection's name under `create`, then
    /// the fields of the options.
    pub fn to_document(&self) -> (r: bson::Document)
        ensures
            doc_keys(r) == create_collection_keys(*self),
            doc_strings(r) == create_collection_strings(*self),
            self.options matches Some(o) ==> doc_arrays(r) == doc_arrays(o) && doc_str_arrays(r)
                == doc_str_arrays(o),
    {
        let mut d = new_document();
        insert_str(&mut d, "create", self.coll.as_str());
        assert(doc_keys(d) =~= seq!["create"@]);
        match &self.options {
            Some(o) => {
                extend_document(&mut d, o.clone());
                assert(doc_arrays(d) =~= doc_arrays(*o));
                assert(doc_str_arrays(d) =~= doc_str_arrays(*o));
            },
            None => {},
        }
        d
    }
}

/// Whatever the client's version, the user-creation document has a
/// mechanisms field exactly when the server is 4.0 or newer and some
/// mechanisms were asked for.
pub proof fn lemma_mechanisms_field(
    client: TestClient,
    c: CreateUserCommand,
    user: &str,
    pwd: Option<&str>,
    roles: &[bson::Bson],
    mechanisms: &[AuthMechanism],
    db: Option<&str>,
)
    requires
        creates_user(client, c, user, pwd, roles, mechanisms, db),
    ensures
        create_user_keys(c).contains("mechanisms"@) <==> (client.version_cmp(4, 0) >= 0
            && mechanisms@.len() > 0),
{
    lemma_user_keys_distinct();
    let keys = create_user_keys(c);
    if c.mechanisms is Some {
        assert(keys.last() == "mechanisms"@);
        assert(keys.contains("mechanisms"@));
    } else {
        assert(forall|k: int| 0 <= k < keys.len() ==> keys[k][0] != 'm');
    }
}

impl TestClient {
    /// The command that creates `user`. Servers before 4.0 refuse a list of
    /// mechanisms, so it is left out there.
    pub fn create_user(
        &self,
        user: &str,
        pwd: Option<&str>,
        roles: &[bson::Bson],
        mechanisms: &[AuthMechanism],
        db: Option<&str>,
    ) -> (r: CreateUserCommand)
        ensures
            creates_user(*self, r, user, pwd, roles, mechanisms, db),
    {
        let role_list = clone_values(roles);
        let mechanism_list = if self.server_version_gte(4, 0) && mechanisms.len() > 0 {
            let mut ms: Vec<AuthMechanism> = Vec::new();
            let mut j: usize = 0;
            while j < mechanisms.len()
                invariant
                    j <= mechanisms@.len(),
                    ms@ == mechanisms@.take(j as int),
                decreases mechanisms@.len() - j,
            {
                ms.push(mechanisms[j]);
                j = j + 1;
                assert(ms@ =~= mechanisms@.take(j as int));
            }
            assert(mechanisms@.take(mechanisms@.len() as int) =~= mechanisms@);
            Some(ms)
        } else {
            None
        };
        let pwd_owned = match pwd {
            Some(p) => Some(String::from_str(p)),
            None => None,
        };
        CreateUserCommand {
            user: String::from_str(user),
            pwd: pwd_owned,
            roles: role_list,
            mechanisms: mechanism_list,
            db: owned_db(db),
        }
    }

    /// The command that drops `user`, sent before it is created anew.
    pub fn drop_user(&self, user: &str, db: Option<&str>) -> (r: DropUserCommand)
        ensures
            r.user@ == user@,
            r.db@ == db_or_admin(db),
    {
        DropUserCommand { user: String::from_str(user), db: owned_db(db) }
    }

    /// Given how dropping `user` ended, the command that creates it afresh.
    /// A user that was not there is no failure; any other failure is passed on.
    pub fn drop_and_create_user(
        &self,
        drop_outcome: CommandOutcome,
        user: &str,
        pwd: Option<&str>,
        roles: &[bson::Bson],
        mechanisms: &[AuthMechanism],
        db: Option<&str>,
    ) -> (r: Result<CreateUserCommand, FixtureError>)
        ensures
            r is Ok <==> tolerated(drop_outcome, USER_NOT_FOUND),
            r matches Ok(c) ==> creates_user(*self, c, user, pwd, roles, mechanisms, db),
            r is Err ==> r->Err_0 == failure_of(drop_outcome),
    {
        match accept_benign(drop_outcome, USER_NOT_FOUND) {
            Ok(()) => Ok(self.create_user(user, pwd, roles, mechanisms, db)),
            Err(e) => Err(e),
        }
    }

    /// The command that drops collection `coll_name` of `db_name`.
    pub fn drop_collection(&self, db_name: &str, coll_name: &str) -> (r: DropCollectionCommand)
        ensures
            r.db@ == db_name@,
            r.coll@ == coll_name@,
    {
        DropCollectionCommand { db: String::from_str(db_name), coll: String::from_str(coll_name) }
    }
}

impl TestClient {
    /// Given how dropping collection `coll_name` of `db_name` ended, the
    /// command that creates it empty.
    pub fn create_fresh_collection(
        &self,
        drop_outcome: CommandOutcome,
        db_name: &str,
        coll_name: &str,
        options: Option<bson::Document>,
    ) -> (r: Result<CreateCollectionCommand, FixtureError>)
        ensures
            r is Ok <==> tolerated(drop_outcome, NAMESPACE_NOT_FOUND),
            r matches Ok(c) ==> c.db@ == db_name@ && c.coll@ == coll_name@ && c.options == options,
            r is Err ==> r->Err_0 == failure_of(drop_outcome),
    {
        match drop_collection(drop_outcome) {
            Ok(()) => Ok(
                CreateCollectionCommand {
                    db: String::from_str(db_name),
                    coll: String::from_str(coll_name),
                    options,
                },
            ),
            Err(e) => Err(e),
        }
    }
}

/// How dropping a collection ended, as the harness sees it: a collection
/// that was not there is no failure; any other failure is passed on.
pub fn drop_collection(outcome: CommandOutcome) -> (r: Result<(), FixtureError>)
    ensures
        r is Ok <==> tolerated(outcome, NAMESPACE_NOT_FOUND),
        r is Err ==> r->Err_0 == failure_of(outcome),
{
    accept_benign(outcome, NAMESPACE_NOT_FOUND)
}

/// The server answers a drop of a user with success where the user was
/// there and with "user not found" where it was not. Either answer lets
/// `drop_and_create_user` go on to create the user, so two identical calls in
/// a row both succeed whatever state an earlier run left.
pub proof fn lemma_drop_and_create_user_repeatable(first: CommandOutcome, second: CommandOutcome)
    requires
        first == CommandOutcome::Succeeded || first == CommandOutcome::CommandFailed(USER_NOT_FOUND),
        second == CommandOutcome::Succeeded || second == CommandOutcome::CommandFailed(
            USER_NOT_FOUND,
        ),
    ensures
        tolerated(first, USER_NOT_FOUND),
        tolerated(second, USER_NOT_FOUND),
{
}

/// The server answers a drop of a collection with success where it was there
/// and with "namespace not found" where it was not. Either answer is success
/// for `drop_collection`, so dropping twice in a row succeeds both times.
pub proof fn lemma_drop_collection_repeatable(first: CommandOutcome, second: CommandOutcome)
    requires
        first == CommandOutcome::Succeeded || first == CommandOutcome::CommandFailed(
            NAMESPACE_NOT_FOUND,
        ),
        second == CommandOutcome::Succeeded || second == CommandOutcome::CommandFailed(
            NAMESPACE_NOT_FOUND,
        ),
    ensures
        tolerated(first, NAMESPACE_NOT_FOUND),
        tolerated(second, NAMESPACE_NOT_FOUND),
{
}

} // verus!
