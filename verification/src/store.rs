//! Customer `api_keys` data access: the statements that reach Postgres.
//!
//! Every operation is scoped to organizations: reads and mutations only ever touch rows in the
//! caller's organizations, so that a customer can never see or change another tenant's keys.

use crate::text::{decimal, decimal_text, opt_string};
use crate::text_laws::{lemma_occurs_at, occurs};
use vstd::prelude::*;

verus! {

/// Fields for a new row. The secret is never stored, only its hash.
pub struct NewApiKey<'a> {
    pub key_id: &'a str,
    /// The 128 bits of the organization's UUID.
    pub org_id: u128,
    pub name: &'a str,
    pub secret_hash: String,
    /// The scopes as JSON text.
    pub scopes: String,
    pub env: &'a str,
}

/// Patch for a sync upsert. `None` leaves a column untouched.
#[derive(Clone, Debug, PartialEq, Eq)]
pub struct ApiKeyPatch {
    pub name: Option<String>,
    /// The scopes as JSON text.
    pub scopes: Option<String>,
    pub env: Option<String>,
    pub revoked: Option<bool>,
}

impl Default for ApiKeyPatch {
    fn default() -> (r: Self)
        ensures
            r.name is None,
            r.scopes is None,
            r.env is None,
            r.revoked is None,
    {
        ApiKeyPatch { name: None, scopes: None, env: None, revoked: None }
    }
}

/// A value that a statement binds.
#[derive(Clone, Debug, PartialEq, Eq)]
pub enum Bind {
    Text(String),
    OptionalText(Option<String>),
    Json(String),
    OptionalJson(Option<String>),
    OptionalFlag(Option<bool>),
    Uuid(u128),
    Uuids(Vec<u128>),
}

/// What a bound value is.
pub enum BindView {
    Text(Seq<char>),
    OptionalText(Option<Seq<char>>),
    Json(Seq<char>),
    OptionalJson(Option<Seq<char>>),
    OptionalFlag(Option<bool>),
    Uuid(u128),
    Uuids(Seq<u128>),
}

impl View for Bind {
    type V = BindView;

    open spec fn view(&self) -> BindView {
        match self {
            Bind::Text(text) => BindView::Text(text@),
            Bind::OptionalText(text) => BindView::OptionalText(opt_string(*text)),
            Bind::Json(text) => BindView::Json(text@),
            Bind::OptionalJson(text) => BindView::OptionalJson(opt_string(*text)),
            Bind::OptionalFlag(flag) => BindView::OptionalFlag(*flag),
            Bind::Uuid(id) => BindView::Uuid(*id),
            Bind::Uuids(ids) => BindView::Uuids(ids@),
        }
    }
}

/// How many rows a statement gives back.
#[derive(Clone, Copy, Debug, PartialEq, Eq, Structural)]
pub enum Fetch {
    All,
    One,
    Optional,
}

/// A statement, the values bound to `$1`, `$2` and so on, and the rows it gives back.
#[derive(Clone, Debug, PartialEq, Eq)]
pub struct Statement {
    pub sql: String,
    pub binds: Vec<Bind>,
    pub fetch: Fetch,
}

/// What a statement is.
#[verifier::ext_equal]
pub struct StatementView {
    pub sql: Seq<char>,
    pub binds: Seq<BindView>,
    pub fetch: Fetch,
}

impl View for Statement {
    type V = StatementView;

    open spec fn view(&self) -> StatementView {
        StatementView {
            sql: self.sql@,
            binds: self.binds@.map_values(|bind: Bind| bind@),
            fetch: self.fetch,
        }
    }
}

pub const SCOPE_OPEN: &'static str = "org_id = any($";

pub const SCOPE_END: &'static str = ")";

pub const WHERE: &'static str = " where ";

pub const AND: &'static str = " and ";

pub const RETURNING: &'static str = " returning *";

pub const LIST: &'static str = "select * from api_keys";

/// Newest first.
pub const LIST_ORDER: &'static str = " order by created_at desc";

pub const INSERT: &'static str =
    "insert into api_keys (key_id, org_id, name, secret_hash, scopes, env) \
    values ($1, $2, $3, $4, $5, $6) returning *";

pub const ROTATE: &'static str = "update api_keys set secret_hash = $1 where key_id = $2";

pub const REVOKE: &'static str = "update api_keys set revoked = true where id = $1";

pub const PATCH: &'static str =
    "update api_keys set \
    name = coalesce($2, name), \
    scopes = coalesce($3, scopes), \
    env = coalesce($4, env), \
    revoked = coalesce($5, revoked) \
    where id = $1";

/// The condition that a row belongs to one of the organizations bound to the `k`-th parameter.
pub open spec fn org_scope(k: nat) -> Seq<char> {
    SCOPE_OPEN@ + decimal(k) + SCOPE_END@
}

/// A statement text that ends in the condition on the organizations and one more piece.
pub open spec fn scoped_sql(
    head: Seq<char>,
    joined_by: Seq<char>,
    k: nat,
    tail: Seq<char>,
) -> Seq<char> {
    head + joined_by + org_scope(k) + tail
}

fn scoped_text(head: &str, joined_by: &str, k: u64, tail: &str) -> (r: String)
    ensures
        r@ == scoped_sql(head@, joined_by@, k as nat, tail@),
{
    let mut scope = SCOPE_OPEN.to_owned();
    let parameter = decimal_text(k);
    scope.append(parameter.as_str());
    scope.append(SCOPE_END);
    let mut sql = head.to_owned();
    sql.append(joined_by);
    sql.append(scope.as_str());
    sql.append(tail);
    sql
}

fn copied(ids: &[u128]) -> (r: Vec<u128>)
    ensures
        r@ == ids@,
{
    let mut list: Vec<u128> = Vec::new();
    let mut i: usize = 0;
    while i < ids.len()
        invariant
            i <= ids.len(),
            list@ == ids@.take(i as int),
        decreases ids.len() - i,
    {
        list.push(ids[i]);
        assert(list@ =~= ids@.take(i + 1));
        i += 1;
    }
    assert(ids@.take(i as int) =~= ids@);
    list
}

/// The statement that lists keys.
pub open spec fn listing_statement(orgs: Seq<u128>) -> StatementView {
    StatementView {
        sql: scoped_sql(LIST@, WHERE@, 1, LIST_ORDER@),
        binds: seq![BindView::Uuids(orgs)],
        fetch: Fetch::All,
    }
}

/// Lists the caller's keys (scoped to the organizations), newest first.
pub fn list_api_keys(orgs: &[u128]) -> (r: Statement)
    ensures
        r@ == listing_statement(orgs@),
{
    let mut binds: Vec<Bind> = Vec::new();
    binds.push(Bind::Uuids(copied(orgs)));
    let statement = Statement {
        sql: scoped_text(LIST, WHERE, 1, LIST_ORDER),
        binds,
        fetch: Fetch::All,
    };
    assert(statement@ =~= listing_statement(orgs@));
    statement
}

/// The statement that inserts a key.
pub open spec fn insertion_statement(
    key_id: Seq<char>,
    org_id: u128,
    name: Seq<char>,
    secret_hash: Seq<char>,
    scopes: Seq<char>,
    env: Seq<char>,
) -> StatementView {
    StatementView {
        sql: INSERT@,
        binds: seq![
            BindView::Text(key_id),
            BindView::Uuid(org_id),
            BindView::Text(name),
            BindView::Text(secret_hash),
            BindView::Json(scopes),
            BindView::Text(env),
        ],
        fetch: Fetch::One,
    }
}

/// Inserts a key under `new.org_id` and gives back the committed row.
pub fn insert_api_key(new: NewApiKey<'_>) -> (r: Statement)
    ensures
        r@ == insertion_statement(
            new.key_id@,
            new.org_id,
            new.name@,
            new.secret_hash@,
            new.scopes@,
            new.env@,
        ),
{
    let ghost expected = insertion_statement(
        new.key_id@,
        new.org_id,
        new.name@,
        new.secret_hash@,
        new.scopes@,
        new.env@,
    );
    let mut binds: Vec<Bind> = Vec::new();
    binds.push(Bind::Text(new.key_id.to_owned()));
    binds.push(Bind::Uuid(new.org_id));
    binds.push(Bind::Text(new.name.to_owned()));
    binds.push(Bind::Text(new.secret_hash));
    binds.push(Bind::Json(new.scopes));
    binds.push(Bind::Text(new.env.to_owned()));
    let statement = Statement { sql: INSERT.to_owned(), binds, fetch: Fetch::One };
    assert(statement@ =~= expected);
    statement
}

/// The statement that rotates the secret of a key.
pub open spec fn rotation_statement(
    key_id: Seq<char>,
    secret_hash: Seq<char>,
    orgs: Seq<u128>,
) -> StatementView {
    StatementView {
        sql: scoped_sql(ROTATE@, AND@, 3, RETURNING@),
        binds: seq![BindView::Text(secret_hash), BindView::Text(key_id), BindView::Uuids(orgs)],
        fetch: Fetch::Optional,
    }
}

/// Rotates the stored secret hash of a key, scoped to the caller's organizations. No row comes
/// back where no key in those organizations has that identifier.
pub fn rotate_secret(key_id: &str, secret_hash: String, orgs: &[u128]) -> (r: Statement)
    ensures
        r@ == rotation_statement(key_id@, secret_hash@, orgs@),
{
    let ghost expected = rotation_statement(key_id@, secret_hash@, orgs@);
    let mut binds: Vec<Bind> = Vec::new();
    binds.push(Bind::Text(secret_hash));
    binds.push(Bind::Text(key_id.to_owned()));
    binds.push(Bind::Uuids(copied(orgs)));
    let statement = Statement {
        sql: scoped_text(ROTATE, AND, 3, RETURNING),
        binds,
        fetch: Fetch::Optional,
    };
    assert(statement@ =~= expected);
    statement
}

/// The statement that revokes a key.
pub open spec fn revocation_statement(id: u128, orgs: Seq<u128>) -> StatementView {
    StatementView {
        sql: scoped_sql(REVOKE@, AND@, 2, RETURNING@),
        binds: seq![BindView::Uuid(id), BindView::Uuids(orgs)],
        fetch: Fetch::Optional,
    }
}

/// Soft-revokes a key, scoped to the caller's organizations.
pub fn soft_delete(id: u128, orgs: &[u128]) -> (r: Statement)
    ensures
        r@ == revocation_statement(id, orgs@),
{
    let mut binds: Vec<Bind> = Vec::new();
    binds.push(Bind::Uuid(id));
    binds.push(Bind::Uuids(copied(orgs)));
    let statement = Statement {
        sql: scoped_text(REVOKE, AND, 2, RETURNING),
        binds,
        fetch: Fetch::Optional,
    };
    assert(statement@ =~= revocation_statement(id, orgs@));
    statement
}

/// The statement that applies a patch to a key. A column whose field is `None` keeps its value.
pub open spec fn patch_statement(
    id: u128,
    orgs: Seq<u128>,
    patch: ApiKeyPatch,
) -> StatementView {
    StatementView {
        sql: scoped_sql(PATCH@, AND@, 6, RETURNING@),
        binds: seq![
            BindView::Uuid(id),
            BindView::OptionalText(opt_string(patch.name)),
            BindView::OptionalJson(opt_string(patch.scopes)),
            BindView::OptionalText(opt_string(patch.env)),
            BindView::OptionalFlag(patch.revoked),
            BindView::Uuids(orgs),
        ],
        fetch: Fetch::Optional,
    }
}

/// Applies a sync upsert patch to a key, scoped to the caller's organizations.
pub fn upsert_fields(id: u128, orgs: &[u128], patch: ApiKeyPatch) -> (r: Statement)
    ensures
        r@ == patch_statement(id, orgs@, patch),
{
    let ghost expected = patch_statement(id, orgs@, patch);
    let mut binds: Vec<Bind> = Vec::new();
    binds.push(Bind::Uuid(id));
    binds.push(Bind::OptionalText(patch.name));
    binds.push(Bind::OptionalJson(patch.scopes));
    binds.push(Bind::OptionalText(patch.env));
    binds.push(Bind::OptionalFlag(patch.revoked));
    binds.push(Bind::Uuids(copied(orgs)));
    let statement = Statement {
        sql: scoped_text(PATCH, AND, 6, RETURNING),
        binds,
        fetch: Fetch::Optional,
    };
    assert(statement@ =~= expected);
    statement
}

/// A statement whose rows are restricted to some organizations: its text has the condition on a
/// parameter, joined by `where` or `and`, and those organizations are bound to that parameter.
pub open spec fn is_scoped(statement: StatementView, orgs: Seq<u128>) -> bool {
    exists|head: Seq<char>, joined_by: Seq<char>, k: nat, tail: Seq<char>|
        {
            &&& statement.sql == #[trigger] scoped_sql(head, joined_by, k, tail)
            &&& joined_by == WHERE@ || joined_by == AND@
            &&& tail == LIST_ORDER@ || tail == RETURNING@
            &&& 1 <= k <= statement.binds.len()
            &&& statement.binds[k - 1] == BindView::Uuids(orgs)
        }
}

/// Every statement that reads or changes existing rows is scoped to the caller's organizations.
pub proof fn law_existing_rows_are_org_scoped(
    orgs: Seq<u128>,
    id: u128,
    key_id: Seq<char>,
    secret_hash: Seq<char>,
    patch: ApiKeyPatch,
)
    ensures
        is_scoped(listing_statement(orgs), orgs),
        is_scoped(rotation_statement(key_id, secret_hash, orgs), orgs),
        is_scoped(revocation_statement(id, orgs), orgs),
        is_scoped(patch_statement(id, orgs, patch), orgs),
{
    assert(listing_statement(orgs).sql == scoped_sql(LIST@, WHERE@, 1, LIST_ORDER@));
    assert(rotation_statement(key_id, secret_hash, orgs).sql == scoped_sql(
        ROTATE@,
        AND@,
        3,
        RETURNING@,
    ));
    assert(revocation_statement(id, orgs).sql == scoped_sql(REVOKE@, AND@, 2, RETURNING@));
    assert(patch_statement(id, orgs, patch).sql == scoped_sql(PATCH@, AND@, 6, RETURNING@));
}

/// A new key is bound to the organization that was asked for, and its secret to the hash.
pub proof fn law_new_rows_belong_to_their_org(
    key_id: Seq<char>,
    org_id: u128,
    name: Seq<char>,
    secret_hash: Seq<char>,
    scopes: Seq<char>,
    env: Seq<char>,
)
    ensures
        insertion_statement(key_id, org_id, name, secret_hash, scopes, env).binds[1]
            == BindView::Uuid(org_id),
        insertion_statement(key_id, org_id, name, secret_hash, scopes, env).binds[3]
            == BindView::Text(secret_hash),
{
}

/// Keys are listed newest first among those of the organizations, and all of them come back.
pub proof fn law_listing_reads_the_organizations(orgs: Seq<u128>)
    ensures
        listing_statement(orgs).sql
            == "select * from api_keys where org_id = any($1) order by created_at desc"@,
        listing_statement(orgs).binds == seq![BindView::Uuids(orgs)],
        listing_statement(orgs).fetch == Fetch::All,
{
    reveal_strlit("select * from api_keys where org_id = any($1) order by created_at desc");
    lemma_scope_text();
    reveal_strlit("org_id = any($1)");
    reveal_strlit("select * from api_keys");
    reveal_strlit(" where ");
    reveal_strlit(" order by created_at desc");
    assert(listing_statement(orgs).sql
        =~= "select * from api_keys where org_id = any($1) order by created_at desc"@);
}

proof fn lemma_scope_text()
    ensures
        org_scope(1) == "org_id = any($1)"@,
        org_scope(2) == "org_id = any($2)"@,
        org_scope(3) == "org_id = any($3)"@,
        org_scope(6) == "org_id = any($6)"@,
{
    reveal_strlit("org_id = any($");
    reveal_strlit(")");
    reveal_strlit("org_id = any($1)");
    reveal_strlit("org_id = any($2)");
    reveal_strlit("org_id = any($3)");
    reveal_strlit("org_id = any($6)");
    assert(decimal(1) =~= seq!['1']);
    assert(decimal(2) =~= seq!['2']);
    assert(decimal(3) =~= seq!['3']);
    assert(decimal(6) =~= seq!['6']);
    assert(org_scope(1) =~= "org_id = any($1)"@);
    assert(org_scope(2) =~= "org_id = any($2)"@);
    assert(org_scope(3) =~= "org_id = any($3)"@);
    assert(org_scope(6) =~= "org_id = any($6)"@);
}

/// A new row has in each column what was given for that column, and comes back.
pub proof fn law_insertion_fills_each_column(
    key_id: Seq<char>,
    org_id: u128,
    name: Seq<char>,
    secret_hash: Seq<char>,
    scopes: Seq<char>,
    env: Seq<char>,
)
    ensures
        ({
            let statement = insertion_statement(key_id, org_id, name, secret_hash, scopes, env);
            &&& statement.sql
                == "insert into api_keys (key_id, org_id, name, secret_hash, scopes, env) values ($1, $2, $3, $4, $5, $6) returning *"@
            &&& statement.binds.len() == 6
            &&& statement.binds[0] == BindView::Text(key_id)
            &&& statement.binds[1] == BindView::Uuid(org_id)
            &&& statement.binds[2] == BindView::Text(name)
            &&& statement.binds[3] == BindView::Text(secret_hash)
            &&& statement.binds[4] == BindView::Json(scopes)
            &&& statement.binds[5] == BindView::Text(env)
            &&& statement.fetch == Fetch::One
        }),
{
}

/// A rotation gives the key with that identifier, among those of the organizations, the new hash
/// and changes nothing else; at most one row comes back.
pub proof fn law_rotation_changes_the_hash_of_one_key(
    key_id: Seq<char>,
    secret_hash: Seq<char>,
    orgs: Seq<u128>,
)
    ensures
        ({
            let statement = rotation_statement(key_id, secret_hash, orgs);
            &&& statement.sql
                == "update api_keys set secret_hash = $1 where key_id = $2 and org_id = any($3) returning *"@
            &&& statement.binds == seq![
                BindView::Text(secret_hash),
                BindView::Text(key_id),
                BindView::Uuids(orgs),
            ]
            &&& statement.fetch == Fetch::Optional
        }),
{
    lemma_scope_text();
    reveal_strlit("update api_keys set secret_hash = $1 where key_id = $2");
    reveal_strlit(" and ");
    reveal_strlit(" returning *");
    reveal_strlit("org_id = any($3)");
    reveal_strlit(
        "update api_keys set secret_hash = $1 where key_id = $2 and org_id = any($3) returning *",
    );
    assert(rotation_statement(key_id, secret_hash, orgs).sql
        =~= "update api_keys set secret_hash = $1 where key_id = $2 and org_id = any($3) returning *"@);
}

/// A revocation marks the row with that id, among those of the organizations, and changes nothing
/// else; at most one row comes back.
pub proof fn law_revocation_marks_one_key(id: u128, orgs: Seq<u128>)
    ensures
        revocation_statement(id, orgs).sql
            == "update api_keys set revoked = true where id = $1 and org_id = any($2) returning *"@,
        revocation_statement(id, orgs).binds == seq![BindView::Uuid(id), BindView::Uuids(orgs)],
        revocation_statement(id, orgs).fetch == Fetch::Optional,
{
    lemma_scope_text();
    reveal_strlit("update api_keys set revoked = true where id = $1");
    reveal_strlit(" and ");
    reveal_strlit(" returning *");
    reveal_strlit("org_id = any($2)");
    reveal_strlit(
        "update api_keys set revoked = true where id = $1 and org_id = any($2) returning *",
    );
    assert(revocation_statement(id, orgs).sql
        =~= "update api_keys set revoked = true where id = $1 and org_id = any($2) returning *"@);
}

/// The parameter that stands in a statement's assignment to a column, which keeps what the column
/// holds where nothing is bound to it, is bound to a value.
pub open spec fn patches(
    statement: StatementView,
    column: Seq<char>,
    k: nat,
    value: BindView,
) -> bool {
    &&& 1 <= k <= statement.binds.len()
    &&& occurs(
        statement.sql,
        column + " = coalesce($"@ + decimal(k) + ", "@ + column + ")"@,
    )
    &&& statement.binds[k - 1] == value
}

/// A patch assigns to each column that column's own field, so that a field that is not given leaves
/// its column as it is, in the row with that id among those of the organizations.
pub proof fn law_patch_assigns_each_column_its_field(
    id: u128,
    orgs: Seq<u128>,
    patch: ApiKeyPatch,
)
    ensures
        ({
            let statement = patch_statement(id, orgs, patch);
            &&& patches(statement, "name"@, 2, BindView::OptionalText(opt_string(patch.name)))
            &&& patches(statement, "scopes"@, 3, BindView::OptionalJson(opt_string(patch.scopes)))
            &&& patches(statement, "env"@, 4, BindView::OptionalText(opt_string(patch.env)))
            &&& patches(statement, "revoked"@, 5, BindView::OptionalFlag(patch.revoked))
            &&& occurs(
                statement.sql,
                " where id = $1 and org_id = any($6) returning *"@,
            )
            &&& statement.binds.len() == 6
            &&& statement.binds[0] == BindView::Uuid(id)
            &&& statement.binds[5] == BindView::Uuids(orgs)
            &&& statement.fetch == Fetch::Optional
        }),
{
    let statement = patch_statement(id, orgs, patch);
    lemma_scope_text();
    reveal_strlit(
        "update api_keys set name = coalesce($2, name), scopes = coalesce($3, scopes), env = coalesce($4, env), revoked = coalesce($5, revoked) where id = $1",
    );
    reveal_strlit(" and ");
    reveal_strlit(" returning *");
    reveal_strlit("org_id = any($6)");
    reveal_strlit(" where id = $1 and org_id = any($6) returning *");
    reveal_strlit("name");
    reveal_strlit("scopes");
    reveal_strlit("env");
    reveal_strlit("revoked");
    reveal_strlit(" = coalesce($");
    reveal_strlit(", ");
    reveal_strlit(")");
    assert(decimal(2) =~= seq!['2']);
    assert(decimal(3) =~= seq!['3']);
    assert(decimal(4) =~= seq!['4']);
    assert(decimal(5) =~= seq!['5']);
    let name = "name"@ + " = coalesce($"@ + decimal(2) + ", "@ + "name"@ + ")"@;
    let scopes = "scopes"@ + " = coalesce($"@ + decimal(3) + ", "@ + "scopes"@ + ")"@;
    let env = "env"@ + " = coalesce($"@ + decimal(4) + ", "@ + "env"@ + ")"@;
    let revoked = "revoked"@ + " = coalesce($"@ + decimal(5) + ", "@ + "revoked"@ + ")"@;
    assert(statement.sql.subrange(20, 45) =~= name);
    assert(statement.sql.subrange(47, 76) =~= scopes);
    assert(statement.sql.subrange(78, 101) =~= env);
    assert(statement.sql.subrange(103, 134) =~= revoked);
    assert(statement.sql.subrange(134, statement.sql.len() as int)
        =~= " where id = $1 and org_id = any($6) returning *"@);
    lemma_occurs_at(statement.sql, name, 20);
    lemma_occurs_at(statement.sql, scopes, 47);
    lemma_occurs_at(statement.sql, env, 78);
    lemma_occurs_at(statement.sql, revoked, 103);
    lemma_occurs_at(statement.sql, " where id = $1 and org_id = any($6) returning *"@, 134);
}

/// One text serves every patch: what is patched is told by the bound values alone.
pub proof fn law_patch_text_is_fixed(
    id: u128,
    orgs: Seq<u128>,
    patch: ApiKeyPatch,
    other_id: u128,
    other_orgs: Seq<u128>,
    other: ApiKeyPatch,
)
    ensures
        patch_statement(id, orgs, patch).sql == patch_statement(other_id, other_orgs, other).sql,
{
}

} // verus!
