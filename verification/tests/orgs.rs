use axum::http::{HeaderMap, HeaderValue};
use fiducia_customer::orgs::{
    encode_query_value, selected_customer_org, selected_org, OrgError,
};
use fiducia_customer::portal::{CustomerCtx, Org};

const ORG_A: &str = "00000000-0000-4000-8000-000000000001";
const ORG_B: &str = "00000000-0000-4000-8000-000000000002";
const CUSTOMER_ORG_HEADER: &str = "x-fiducia-org-id";

fn customer(orgs: &[&str]) -> CustomerCtx {
    CustomerCtx {
        user_id: "00000000-0000-4000-8000-000000000099".to_string(),
        email: Some("multi-org@fiducia.cloud".to_string()),
        orgs: orgs.iter().map(|org| org.to_string()).collect(),
    }
}

#[test]
fn org_selection_is_explicit_and_membership_checked() {
    let ctx = &customer(&[ORG_A, ORG_B]);

    assert_eq!(selected_customer_org(ctx, &HeaderMap::new()).unwrap_err().status(), 400);

    let mut selected = HeaderMap::new();
    selected.insert(CUSTOMER_ORG_HEADER, HeaderValue::from_static(ORG_B));
    assert_eq!(selected_customer_org(ctx, &selected).unwrap(), ORG_B);

    selected.insert(
        CUSTOMER_ORG_HEADER,
        HeaderValue::from_static("00000000-0000-4000-8000-000000000003"),
    );
    assert_eq!(selected_customer_org(ctx, &selected).unwrap_err().status(), 403);

    selected.insert(CUSTOMER_ORG_HEADER, HeaderValue::from_static("org with whitespace"));
    assert_eq!(selected_customer_org(ctx, &selected).unwrap_err().status(), 400);
}

#[test]
fn the_only_organization_needs_no_name() {
    assert_eq!(
        selected_customer_org(&customer(&[ORG_A]), &HeaderMap::new()),
        Ok(ORG_A.to_string())
    );
    assert_eq!(
        selected_customer_org(&customer(&[]), &HeaderMap::new()),
        Err(OrgError::Required)
    );
    let mut unreadable = HeaderMap::new();
    unreadable.insert(CUSTOMER_ORG_HEADER, HeaderValue::from_bytes(b"\xff").unwrap());
    assert_eq!(
        selected_customer_org(&customer(&[ORG_A]), &unreadable),
        Err(OrgError::Malformed)
    );
    assert_eq!(
        selected_org(&customer(&[ORG_A, ORG_B]), Some(ORG_A)),
        Ok(Org { id: ORG_A.to_string(), query: ORG_A.to_string() })
    );
    assert_eq!(
        selected_org(&customer(&["a b"]), None),
        Ok(Org { id: "a b".to_string(), query: "a%20b".to_string() })
    );
    assert_eq!(selected_org(&customer(&["a b"]), Some("a b")), Err(OrgError::Malformed));
    assert_eq!(
        selected_org(&customer(&[ORG_A]), Some("00000000-0000-4000-8000-00000000000g")),
        Err(OrgError::Malformed)
    );
    assert_eq!(selected_org(&customer(&[ORG_A]), Some(ORG_B)), Err(OrgError::Forbidden));
    assert_eq!(OrgError::Required.code(), "organization_required");
    assert_eq!(OrgError::Malformed.code(), "invalid_organization");
    assert_eq!(OrgError::Forbidden.code(), "organization_forbidden");
}

#[test]
fn query_values_are_percent_encoded() {
    assert_eq!(encode_query_value(""), "");
    assert_eq!(encode_query_value("aZ09-._~"), "aZ09-._~");
    assert_eq!(encode_query_value("org \"b\"&\u{e9}\u{20ac}"), "org%20%22b%22%26%C3%A9%E2%82%AC");
    assert_eq!(encode_query_value("a%20+/"), "a%2520%2B%2F");
}
