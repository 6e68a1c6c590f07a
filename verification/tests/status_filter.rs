use rinzler::status::allows;

#[test]
fn empty_lists_allow_every_code() {
    assert!(allows(&vec![], &vec![], 200));
    assert!(allows(&vec![], &vec![], 404));
}

#[test]
fn excluded_code_is_not_allowed() {
    assert!(!allows(&vec![], &vec![404], 404));
    assert!(allows(&vec![], &vec![404], 200));
}

#[test]
fn included_codes_only() {
    assert!(allows(&vec![200, 301], &vec![], 301));
    assert!(!allows(&vec![200, 301], &vec![], 500));
    assert!(!allows(&vec![200, 404], &vec![404], 404));
}
