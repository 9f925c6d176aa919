use xylo::error::ErrorKind;
use xylo::scaffold::{gitignore, prepare_destination, Preparation};

#[test]
fn a_free_destination_is_created() {
    assert_eq!(prepare_destination(false, false, false), Ok(Preparation::Create));
    assert_eq!(prepare_destination(false, false, true), Ok(Preparation::Create));
}

#[test]
fn an_existing_directory_is_replaced_only_when_forced() {
    assert_eq!(prepare_destination(false, true, true), Ok(Preparation::Replace));
    let err = prepare_destination(false, true, false).unwrap_err();
    assert_eq!(*err.kind(), ErrorKind::AlreadyExists);
    assert_eq!(err.to_string(), "Project already exists");
}

#[test]
fn a_file_is_never_a_destination() {
    for (exists, force) in [(false, false), (false, true), (true, false), (true, true)] {
        let err = prepare_destination(true, exists, force).unwrap_err();
        assert_eq!(*err.kind(), ErrorKind::IsNotADirectory);
    }
}

#[test]
fn ignore_file_lists_build_outputs() {
    assert_eq!(gitignore(), ".build/\ncompile_commands.json\n.clang-format");
}
