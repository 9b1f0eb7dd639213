use basic_auth::{authenticate, error_status, Auth, AuthError, Status, User};

fn sample_directory() -> Vec<User> {
    vec![User::new("Peter", "1234"), User::new("Anna", "p@bl0")]
}

#[test]
fn directory_match() {
    let directory = sample_directory();
    let header = format!("Basic {}", User::new("Anna", "p@bl0").encode());
    let candidate = User::decode(&header).unwrap();
    let found = basic_auth::directory::matches(&candidate, &directory).unwrap();
    assert_eq!("Anna", found.get_name());

    let header = format!("Basic {}", User::new("Anna", "wrong").encode());
    let candidate = User::decode(&header).unwrap();
    assert!(basic_auth::directory::matches(&candidate, &directory).is_none());
}

#[test]
fn first_match_wins() {
    let directory = vec![
        User::new("Peter", "1234"),
        User::new("Peter", "1234"),
        User::new("Anna", "p@bl0"),
    ];
    let candidate = User::new("Peter", "1234");
    assert_eq!("Peter", basic_auth::directory::matches(&candidate, &directory).unwrap().get_name());
}

#[test]
fn match_is_idempotent() {
    let directory = sample_directory();
    let candidate = User::new("Peter", "1234");
    let first = basic_auth::directory::matches(&candidate, &directory).map(|u| u.get_name());
    let second = basic_auth::directory::matches(&candidate, &directory).map(|u| u.get_name());
    assert_eq!(first, second);
    assert_eq!(Some(String::from("Peter")), first);
}

#[test]
fn empty_directory_matches_nothing() {
    let directory: Vec<User> = Vec::new();
    assert!(basic_auth::directory::matches(&User::new("", ""), &directory).is_none());
}

#[test]
fn authenticate_success() {
    let directory = sample_directory();
    let header = format!("Basic {}", User::new("Peter", "1234").encode());
    let found = authenticate(Some(&header), &directory).unwrap();
    assert_eq!("Peter", found.get_name());
}

#[test]
fn authenticate_missing_header() {
    let directory = sample_directory();
    assert_eq!(
        Err(AuthError::MalformedHeader),
        authenticate(None, &directory).map(|u| u.get_name())
    );
}

#[test]
fn authenticate_wrong_scheme() {
    let directory = sample_directory();
    assert_eq!(
        Err(AuthError::MalformedHeader),
        authenticate(Some("Bearer AAA:BBB"), &directory).map(|u| u.get_name())
    );
}

#[test]
fn authenticate_bad_payload() {
    let directory = sample_directory();
    assert_eq!(
        Err(AuthError::MalformedEncoding),
        authenticate(Some("Basic !!!:!!!"), &directory).map(|u| u.get_name())
    );
}

#[test]
fn authenticate_unknown_user() {
    let directory = sample_directory();
    let header = format!("Basic {}", User::new("Hero", "password").encode());
    assert_eq!(
        Err(AuthError::NoMatch),
        authenticate(Some(&header), &directory).map(|u| u.get_name())
    );
}

#[test]
fn status_collapse() {
    assert_eq!(Status::Error, error_status(&AuthError::MalformedHeader));
    assert_eq!(Status::Error, error_status(&AuthError::MalformedEncoding));
    assert_eq!(
        Status::InvalidCredentials,
        error_status(&AuthError::NoMatch)
    );
}
