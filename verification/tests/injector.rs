use tool::injector::{choose_dll, is_elevated, DllLocation};

#[test]
fn library_is_taken_from_the_first_place_it_exists() {
    assert_eq!(choose_dll(true, true, true), Some(DllLocation::BesideExecutable));
    assert_eq!(choose_dll(true, false, false), Some(DllLocation::BesideExecutable));
    assert_eq!(choose_dll(false, true, true), Some(DllLocation::DebugBuild));
    assert_eq!(choose_dll(false, false, true), Some(DllLocation::ReleaseBuild));
    assert_eq!(choose_dll(false, false, false), None);
}

#[test]
fn elevation() {
    assert!(is_elevated(true, true, 1));
    assert!(!is_elevated(true, true, 0));
    assert!(!is_elevated(true, false, 1));
    assert!(!is_elevated(false, false, 0));
}
