use circus::ids::{random_token, token_from_uuids, uuid_to_simple, uuid_to_string};
use circus::slug::{
    slug_candidate, slug_from_lowercase, slug_search_next, slug_search_start, slugify, SlugSearch,
};

#[test]
fn slugify_lowercases_and_collapses_separators() {
    assert_eq!(slugify("Hello World"), "hello-world");
    assert_eq!(slugify("  Acme,  Inc.  "), "acme-inc");
    assert_eq!(slugify("---"), "org");
    assert_eq!(slugify(""), "org");
    assert_eq!(slugify("Ünïcode Team 42"), "n-code-team-42");
    assert_eq!(slugify("a--b"), "a-b");
    assert_eq!(slug_from_lowercase("x y!"), "x-y");
}

#[test]
fn a_slug_is_its_own_slug() {
    for s in ["acme", "my-org-2", "a-b-c", "org", "Ünïcode Team 42", "İstanbul KELVIN"] {
        let once = slugify(s);
        assert!(once.chars().all(|c| c.is_ascii_lowercase() || c.is_ascii_digit() || c == '-'));
        assert_eq!(slugify(&once), once);
    }
    for s in ["acme", "my-org-2", "a-b-c", "org"] {
        assert_eq!(slug_from_lowercase(s), s);
        assert_eq!(slugify(&slugify(s)), slugify(s));
    }
}

#[test]
fn slug_candidates_number_the_base() {
    assert_eq!(slug_candidate("acme", 2), "acme-2");
    assert_eq!(slug_candidate("acme", 10), "acme-10");
}

#[test]
fn uuids_print_in_standard_forms() {
    let v: u128 = 0x67e5504410b1426f9247bb680e5fe0c8;
    assert_eq!(uuid_to_string(v), "67e55044-10b1-426f-9247-bb680e5fe0c8");
    assert_eq!(uuid_to_simple(v), "67e5504410b1426f9247bb680e5fe0c8");
    assert_eq!(uuid_to_string(0), "00000000-0000-0000-0000-000000000000");
    assert_eq!(
        uuid_to_string(u128::MAX),
        uuid::Uuid::from_u128(u128::MAX).hyphenated().to_string()
    );
    assert_eq!(token_from_uuids(1, 2).len(), 64);
}

#[test]
fn random_tokens_are_two_fresh_v4_uuids() {
    let a = random_token();
    let b = random_token();
    assert_eq!(a.len(), 64);
    assert!(a.chars().all(|c| c.is_ascii_hexdigit() && !c.is_ascii_uppercase()));
    assert_ne!(a, b);
    // the version digit of each half
    assert_eq!(&a[12..13], "4");
    assert_eq!(&a[44..45], "4");
}

#[test]
fn slug_search_tries_base_then_numbers() {
    let (candidate, next) = match slug_search_start("Acme Inc") {
        SlugSearch::Try { candidate, next } => (candidate, next),
        SlugSearch::Take(_) => panic!("expected a try"),
    };
    assert_eq!(candidate, "acme-inc");
    assert_eq!(next, 2);
    match slug_search_next("acme-inc", candidate, next, true) {
        SlugSearch::Try { candidate, next } => {
            assert_eq!(candidate, "acme-inc-2");
            assert_eq!(next, 3);
            assert!(matches!(slug_search_next("acme-inc", candidate, next, false), SlugSearch::Take(s) if s == "acme-inc-2"));
        }
        SlugSearch::Take(_) => panic!("expected a try"),
    }
}
