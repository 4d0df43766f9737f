use fiducia_customer::cookies::{cookie_secure_suffix_for, explicitly_enabled, CookiePolicy};

fn policy(release_hardened: bool, insecure_setting: Option<&str>) -> CookiePolicy<String> {
    CookiePolicy {
        login_csrf: "login_csrf".to_string(),
        session: "session".to_string(),
        mfa_pending: "mfa_pending".to_string(),
        release_hardened,
        insecure_setting: insecure_setting.map(str::to_string),
    }
}

#[test]
fn release_cookie_policy_ignores_the_insecure_escape_hatch() {
    assert_eq!(cookie_secure_suffix_for(true, true), "; Secure");
    assert_eq!(cookie_secure_suffix_for(true, false), "; Secure");
    assert_eq!(cookie_secure_suffix_for(false, false), "; Secure");
    assert_eq!(cookie_secure_suffix_for(false, true), "");
}

#[test]
fn only_one_and_true_switch_a_setting_on() {
    for on in ["1", "true", "TRUE", " True\n", "\u{a0}1\u{3000}"] {
        assert!(explicitly_enabled(Some(on)), "{on:?}");
    }
    for off in ["", "0", "yes", "on", "truee", "1 1", "t rue"] {
        assert!(!explicitly_enabled(Some(off)), "{off:?}");
    }
    assert!(!explicitly_enabled(None));
}

#[test]
fn the_suffix_follows_the_setting_in_debug_builds_only() {
    assert_eq!(policy(false, Some("true")).cookie_secure_suffix(), "");
    assert_eq!(policy(false, Some("0")).cookie_secure_suffix(), "; Secure");
    assert_eq!(policy(false, None).cookie_secure_suffix(), "; Secure");
    assert_eq!(policy(true, Some("true")).cookie_secure_suffix(), "; Secure");
}

#[test]
fn cookies_have_their_exact_text() {
    let policy = policy(true, None);
    assert_eq!(
        policy.make_customer_login_csrf_cookie("n0"),
        "login_csrf=n0; Path=/; HttpOnly; SameSite=Strict; Max-Age=600; Secure"
    );
    assert_eq!(
        policy.make_customer_session_cookie("a.b.c"),
        "session=a.b.c; Path=/; HttpOnly; SameSite=Strict; Max-Age=3600; Secure"
    );
    assert_eq!(
        policy.make_customer_mfa_pending_cookie("a.b.c"),
        "mfa_pending=a.b.c; Path=/; HttpOnly; SameSite=Strict; Max-Age=300; Secure"
    );
    assert_eq!(
        policy.clear_customer_login_csrf_cookie(),
        "login_csrf=; Path=/; HttpOnly; SameSite=Strict; Max-Age=0; Secure"
    );
    assert_eq!(
        policy.clear_customer_session_cookie(),
        "session=; Path=/; HttpOnly; SameSite=Strict; Max-Age=0; Secure"
    );
    assert_eq!(
        policy.clear_customer_mfa_pending_cookie(),
        "mfa_pending=; Path=/; HttpOnly; SameSite=Strict; Max-Age=0; Secure"
    );
}

#[test]
fn insecure_debug_cookies_lack_the_attribute() {
    assert_eq!(
        policy(false, Some("1")).make_customer_session_cookie("t"),
        "session=t; Path=/; HttpOnly; SameSite=Strict; Max-Age=3600"
    );
}

#[test]
fn names_must_be_able_to_stand_in_a_header() {
    let mut policy = policy(true, None);
    assert!(policy.is_wf());
    policy.session = "bad\nname".to_string();
    assert!(!policy.is_wf());
}
