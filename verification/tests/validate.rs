use gpu_bootstrap::capability::{bytes_eq, contains_all, contains_name, validate};

fn name(s: &str) -> Vec<u8> {
    s.as_bytes().to_vec()
}

#[test]
fn bytes_eq_equal() {
    assert!(bytes_eq(&name("VK_KHR_surface"), &name("VK_KHR_surface")));
}

#[test]
fn bytes_eq_differs_in_content() {
    assert!(!bytes_eq(&name("VK_KHR_surface"), &name("VK_KHR_surfacE")));
}

#[test]
fn bytes_eq_differs_in_length() {
    assert!(!bytes_eq(&name("VK_KHR_surface"), &name("VK_KHR_surf")));
}

#[test]
fn contains_name_finds_later_entry() {
    let avail = vec![name("a"), name("b"), name("c")];
    assert!(contains_name(&avail, &name("c")));
    assert!(!contains_name(&avail, &name("d")));
}

#[test]
fn contains_all_is_subset_check() {
    let avail = vec![name("b"), name("a"), name("c")];
    assert!(contains_all(&vec![name("a"), name("b")], &avail));
    assert!(!contains_all(&vec![name("a"), name("z")], &avail));
}

#[test]
fn validate_succeeds_when_all_required_available() {
    let required = vec![name("a"), name("b")];
    let available = vec![name("b"), name("c"), name("a")];
    assert!(validate(&required, &available).is_ok());
}

#[test]
fn validate_succeeds_on_empty_required() {
    let required: Vec<Vec<u8>> = vec![];
    let available: Vec<Vec<u8>> = vec![];
    assert!(validate(&required, &available).is_ok());
}

#[test]
fn validate_reports_first_missing_name() {
    let required = vec![name("a"), name("x"), name("y")];
    let available = vec![name("a"), name("y")];
    let missing = validate(&required, &available).unwrap_err();
    assert_eq!(missing.name, name("x"));
    assert_eq!(missing.index, 1);
}

#[test]
fn validate_fails_on_empty_available() {
    let required = vec![name("VK_LAYER_KHRONOS_validation")];
    let available: Vec<Vec<u8>> = vec![];
    let missing = validate(&required, &available).unwrap_err();
    assert_eq!(missing.name, name("VK_LAYER_KHRONOS_validation"));
    assert_eq!(missing.index, 0);
}
