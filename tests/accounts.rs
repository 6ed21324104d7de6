use pemasak::credentials::{
    generate_password, git_url, new_git_password, password_from_indices, CHARSET, TOKEN_LENGTH,
};
use pemasak::sso::{
    full_name, is_faculty_member, ticket_outcome, CasAttributes, CasAuthenticationSuccess,
    CasClient, CasError, CasServiceResponse,
};

fn client(server: &str) -> CasClient {
    CasClient::new("https://pws.example/login".to_string(), server.to_string(), None)
}

fn profile(nama: Option<&str>, kd_org: Option<&str>) -> CasAuthenticationSuccess {
    CasAuthenticationSuccess {
        username: "alice".to_string(),
        attributes: Some(CasAttributes {
            ldap_cn: None,
            kd_org: kd_org.map(|s| s.to_string()),
            peran_user: None,
            nama: nama.map(|s| s.to_string()),
            npm: None,
        }),
    }
}

#[test]
fn login_url_names_the_service() {
    let c = client("https://sso.ui.ac.id/cas2/");
    assert_eq!(
        c.login_url(false).unwrap(),
        "https://sso.ui.ac.id/cas2/login?service=https%3A%2F%2Fpws.example%2Flogin"
    );
    assert_eq!(
        c.login_url(true).unwrap(),
        "https://sso.ui.ac.id/cas2/login?service=https%3A%2F%2Fpws.example%2Flogin&renew=true"
    );
}

#[test]
fn logout_url_with_and_without_redirect() {
    let c = client("https://sso.ui.ac.id/cas2/");
    assert_eq!(c.logout_url(None).unwrap(), "https://sso.ui.ac.id/cas2/logout");
    assert_eq!(
        c.logout_url(Some("https://pws.example/")).unwrap(),
        "https://sso.ui.ac.id/cas2/logout?service=https%3A%2F%2Fpws.example%2F"
    );
}

#[test]
fn validate_url_carries_ticket_and_callback() {
    let c = client("https://sso.ui.ac.id/cas2/");
    assert_eq!(
        c.validate_url("ST-1").unwrap(),
        "https://sso.ui.ac.id/cas2/serviceValidate?service=https%3A%2F%2Fpws.example%2Flogin&ticket=ST-1"
    );
    let c = CasClient::new(
        "s".to_string(),
        "https://cas.example/".to_string(),
        Some("https://cb".to_string()),
    );
    assert_eq!(
        c.validate_url("T").unwrap(),
        "https://cas.example/serviceValidate?service=s&ticket=T&pgtUrl=https%3A%2F%2Fcb"
    );
}

#[test]
fn invalid_server_url_gives_no_url() {
    let c = client("not a url");
    assert!(c.login_url(false).is_none());
    assert!(c.logout_url(None).is_none());
    assert!(c.validate_url("T").is_none());
}

#[test]
fn ticket_outcomes() {
    let ok = ticket_outcome(CasServiceResponse { success: Some(profile(None, None)) });
    assert_eq!(ok.ok().unwrap().username, "alice");
    let bad = ticket_outcome(CasServiceResponse { success: None });
    assert!(matches!(bad, Err(CasError::InvalidTicket)));
}

#[test]
fn profile_rules() {
    assert_eq!(full_name(&profile(Some("Alice A"), None)), "Alice A");
    assert_eq!(full_name(&profile(None, None)), "alice");
    let bare = CasAuthenticationSuccess { username: "bob".to_string(), attributes: None };
    assert_eq!(full_name(&bare), "bob");
    assert!(is_faculty_member(&profile(None, Some("01.00.12.01"))));
    assert!(!is_faculty_member(&profile(None, Some("01.00.12.02"))));
    assert!(!is_faculty_member(&profile(None, None)));
    assert!(!is_faculty_member(&bare));
}

#[test]
fn git_urls() {
    assert_eq!(git_url(true, "pws.example", "alice", "blog"), "https://pws.example/alice/blog");
    assert_eq!(git_url(false, "localhost:8080", "a", "b"), "http://localhost:8080/a/b");
}

#[test]
fn passwords() {
    assert_eq!(password_from_indices(&vec![0, 26, 52, 62, 63]), "Aa0-_");
    let p = generate_password();
    assert_eq!(p.chars().count(), TOKEN_LENGTH);
    assert!(p.chars().all(|c| CHARSET.contains(c)));
    assert_ne!(p, generate_password());
    let g = new_git_password().unwrap();
    assert_eq!(g.password.len(), 32);
    assert!(g.hash.starts_with("$argon2"));
    assert!(!g.hash.contains(&g.password));
}
