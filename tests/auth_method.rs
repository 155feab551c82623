use tds_auth::AuthMethod;

#[test]
fn sql_server_keeps_credentials_and_hides_password() {
    let m = AuthMethod::sql_server("sa", "s3cr3t!");
    match &m {
        AuthMethod::SqlServer(a) => {
            assert_eq!(a.user(), "sa");
            assert_eq!(a.password(), "s3cr3t!");
        }
        _ => panic!("wrong variant"),
    }
    let shown = m.debug_string();
    assert_eq!(shown, "SqlServer(SqlServerAuth { user: \"sa\", password: \"<HIDDEN>\" })");
    assert!(!shown.contains("s3cr3t!"));
}

#[test]
fn windows_splits_domain_at_first_backslash() {
    let m = AuthMethod::windows("CORP\\alice\\x", "pw-123");
    match &m {
        AuthMethod::Windows(a) => {
            assert_eq!(a.domain(), Some("CORP"));
            assert_eq!(a.user(), "alice\\x");
            assert_eq!(a.password(), "pw-123");
        }
        _ => panic!("wrong variant"),
    }
    let shown = m.debug_string();
    assert_eq!(
        shown,
        "Windows(WindowsAuth { user: \"alice\\x\", password: \"<HIDDEN>\", domain: Some(\"CORP\") })"
    );
    assert!(!shown.contains("pw-123"));
}

#[test]
fn windows_without_domain() {
    match AuthMethod::windows("bob", "pw") {
        AuthMethod::Windows(a) => {
            assert_eq!(a.domain(), None);
            assert_eq!(a.user(), "bob");
        }
        _ => panic!("wrong variant"),
    }
    match AuthMethod::windows("\\bob", "pw") {
        AuthMethod::Windows(a) => {
            assert_eq!(a.domain(), Some(""));
            assert_eq!(a.user(), "bob");
        }
        _ => panic!("wrong variant"),
    }
}

#[test]
fn aad_token_is_hidden() {
    let m = AuthMethod::aad_token("eyJ0eXAi.token");
    assert!(m == AuthMethod::AADToken("eyJ0eXAi.token".to_string()));
    let shown = m.debug_string();
    assert_eq!(shown, "AADToken(\"<HIDDEN>\")");
    assert!(!shown.contains("eyJ0eXAi.token"));
}

#[test]
fn managed_identity_client_id() {
    match AuthMethod::aad_managed_identity() {
        AuthMethod::AADManagedIdentity(a) => assert_eq!(a.client_id(), None),
        _ => panic!("wrong variant"),
    }
    let m = AuthMethod::aad_managed_identity_with_client_id("cid");
    match &m {
        AuthMethod::AADManagedIdentity(a) => assert_eq!(a.client_id(), Some("cid")),
        _ => panic!("wrong variant"),
    }
    assert_eq!(
        m.debug_string(),
        "AADManagedIdentity(AADManagedIdentityAuth { client_id: Some(\"cid\") })"
    );
    assert_eq!(
        AuthMethod::aad_managed_identity().debug_string(),
        "AADManagedIdentity(AADManagedIdentityAuth { client_id: None })"
    );
}

#[test]
fn service_principal_secret_is_hidden() {
    let m = AuthMethod::aad_service_principal("app-id", "very-secret");
    match &m {
        AuthMethod::AADServicePrincipal(a) => {
            assert_eq!(a.client_id(), "app-id");
            assert_eq!(a.client_secret(), "very-secret");
        }
        _ => panic!("wrong variant"),
    }
    let shown = m.debug_string();
    assert_eq!(
        shown,
        "AADServicePrincipal(AADServicePrincipalAuth { client_id: \"app-id\", client_secret: \"<HIDDEN>\" })"
    );
    assert!(!shown.contains("very-secret"));
}

#[test]
fn rendering_ignores_secret_value() {
    assert_eq!(
        AuthMethod::sql_server("u", "").debug_string(),
        AuthMethod::sql_server("u", "other").debug_string()
    );
    assert_eq!(AuthMethod::Integrated.debug_string(), "Integrated");
    assert_eq!(AuthMethod::NotConfigured.debug_string(), "NotConfigured");
}

#[test]
fn equality_includes_secrets() {
    assert!(AuthMethod::sql_server("u", "p") == AuthMethod::sql_server("u", "p"));
    assert!(AuthMethod::sql_server("u", "p") != AuthMethod::sql_server("u", "q"));
    assert!(AuthMethod::aad_service_principal("c", "s1") != AuthMethod::aad_service_principal("c", "s2"));
}
