use gmf::credentials::{choose_credentials, Credentials};

#[test]
fn user_of_the_helper_is_preferred() {
    assert_eq!(
        choose_credentials(Some(String::from("helper")), Some("url")),
        Credentials::SshAgent { username: String::from("helper") }
    );
    assert_eq!(
        choose_credentials(Some(String::from("helper")), None),
        Credentials::SshAgent { username: String::from("helper") }
    );
}

#[test]
fn user_of_the_url_is_the_fallback() {
    assert_eq!(
        choose_credentials(None, Some("url")),
        Credentials::SshAgent { username: String::from("url") }
    );
    assert_eq!(choose_credentials(None, None), Credentials::Default);
}
