use xylo::error::{Error, ErrorKind};

#[test]
fn each_kind_has_its_message() {
    assert_eq!(ErrorKind::AlreadyExists.as_str(), "Project already exists");
    assert_eq!(ErrorKind::IsNotADirectory.as_str(), "Is not a directory");
    assert_eq!(ErrorKind::FileAlreadyExists.as_str(), "File already exists");
    assert_eq!(ErrorKind::InvalidConfig.as_str(), "Invalid config");
    assert_eq!(ErrorKind::ProfileNotFound { name: "x".to_string() }.as_str(), "Profile not found");
    assert_eq!(ErrorKind::GenerationFailure.as_str(), "Unable to generate config");
}

#[test]
fn error_message_is_the_message_of_its_kind() {
    assert_eq!(Error::new(ErrorKind::InvalidConfig).to_string(), "Invalid config");
    assert_eq!(Error::new(ErrorKind::AlreadyExists).to_string(), "Project already exists");
    assert_eq!(ErrorKind::IsNotADirectory.to_string(), "Is not a directory");
}

#[test]
fn error_keeps_its_kind() {
    let e = Error::new(ErrorKind::ProfileNotFound { name: "debug".to_string() });
    assert_eq!(*e.kind(), ErrorKind::ProfileNotFound { name: "debug".to_string() });
    assert_eq!(*Error::new(ErrorKind::GenerationFailure).kind(), ErrorKind::GenerationFailure);
}

#[test]
fn messages_are_single_lines() {
    for kind in [
        ErrorKind::AlreadyExists,
        ErrorKind::FileAlreadyExists,
        ErrorKind::IsNotADirectory,
        ErrorKind::InvalidConfig,
        ErrorKind::ProfileNotFound { name: "a\nb".to_string() },
        ErrorKind::GenerationFailure,
    ] {
        assert!(!kind.as_str().contains('\n'));
        assert!(!kind.as_str().is_empty());
    }
}
