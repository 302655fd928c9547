use file_convert::random::{gen_random_string, string_from_indices, CHARSET, STR_LEN};

#[test]
fn random_string_has_twenty_letters() {
    for _ in 0..100 {
        let s = gen_random_string().unwrap();
        assert_eq!(s.chars().count(), STR_LEN);
        assert_eq!(STR_LEN, 20);
        assert!(s.chars().all(|c| c.is_ascii_alphabetic()));
        assert!(!s.contains('/') && !s.contains('.'));
    }
}

#[test]
fn random_strings_differ() {
    let a = gen_random_string().unwrap();
    let b = gen_random_string().unwrap();
    let c = gen_random_string().unwrap();
    assert!(a != b || b != c);
}

#[test]
fn indices_pick_letters() {
    assert_eq!(string_from_indices(&vec![0, 25, 26, 51]), "AZaz");
    assert_eq!(string_from_indices(&vec![]), "");
    assert_eq!(CHARSET.len(), 52);
}
