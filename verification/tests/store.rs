use fiducia_customer::store::{
    insert_api_key, list_api_keys, rotate_secret, soft_delete, upsert_fields, ApiKeyPatch, Bind,
    Fetch, NewApiKey, Statement,
};

#[test]
fn keys_are_listed_newest_first_within_the_organizations() {
    assert_eq!(
        list_api_keys(&[1, 2]),
        Statement {
            sql: "select * from api_keys where org_id = any($1) order by created_at desc"
                .to_string(),
            binds: vec![Bind::Uuids(vec![1, 2])],
            fetch: Fetch::All,
        }
    );
}

#[test]
fn a_new_key_is_inserted_under_its_organization() {
    let statement = insert_api_key(NewApiKey {
        key_id: "k",
        org_id: 7,
        name: "n",
        secret_hash: "h".to_string(),
        scopes: "[\"requests:write\"]".to_string(),
        env: "live",
    });
    assert_eq!(
        statement,
        Statement {
            sql: "insert into api_keys (key_id, org_id, name, secret_hash, scopes, env) \
                  values ($1, $2, $3, $4, $5, $6) returning *"
                .to_string(),
            binds: vec![
                Bind::Text("k".to_string()),
                Bind::Uuid(7),
                Bind::Text("n".to_string()),
                Bind::Text("h".to_string()),
                Bind::Json("[\"requests:write\"]".to_string()),
                Bind::Text("live".to_string()),
            ],
            fetch: Fetch::One,
        }
    );
}

#[test]
fn rotation_and_revocation_are_scoped() {
    assert_eq!(
        rotate_secret("k", "h".to_string(), &[3]),
        Statement {
            sql: "update api_keys set secret_hash = $1 where key_id = $2 and \
                  org_id = any($3) returning *"
                .to_string(),
            binds: vec![
                Bind::Text("h".to_string()),
                Bind::Text("k".to_string()),
                Bind::Uuids(vec![3]),
            ],
            fetch: Fetch::Optional,
        }
    );
    assert_eq!(
        soft_delete(9, &[]),
        Statement {
            sql: "update api_keys set revoked = true where id = $1 and org_id = any($2) returning *"
                .to_string(),
            binds: vec![Bind::Uuid(9), Bind::Uuids(vec![])],
            fetch: Fetch::Optional,
        }
    );
}

#[test]
fn a_patch_leaves_what_it_does_not_name() {
    let patch = ApiKeyPatch { name: Some("new".to_string()), ..ApiKeyPatch::default() };
    assert_eq!(
        upsert_fields(9, &[3, 4], patch),
        Statement {
            sql: "update api_keys set name = coalesce($2, name), scopes = coalesce($3, scopes), \
                  env = coalesce($4, env), revoked = coalesce($5, revoked) \
                  where id = $1 and org_id = any($6) returning *"
                .to_string(),
            binds: vec![
                Bind::Uuid(9),
                Bind::OptionalText(Some("new".to_string())),
                Bind::OptionalJson(None),
                Bind::OptionalText(None),
                Bind::OptionalFlag(None),
                Bind::Uuids(vec![3, 4]),
            ],
            fetch: Fetch::Optional,
        }
    );
    assert_eq!(
        ApiKeyPatch::default(),
        ApiKeyPatch { name: None, scopes: None, env: None, revoked: None }
    );
}
