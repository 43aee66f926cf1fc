use mabar_backend::chars::{
    char_in_class, contains_class, is_control, is_special, CharClass,
};
use mabar_backend::text::{chars_of, join_text, starts_with_chars, str_equals, string_of, suffix_from};

#[test]
fn strings_and_characters() {
    assert!(str_equals("abc", "abc"));
    assert!(!str_equals("abc", "abd"));
    assert!(!str_equals("abc", "ab"));
    assert!(str_equals("", ""));
    assert_eq!(chars_of("aé€"), vec!['a', 'é', '€']);
    assert_eq!(string_of(&vec!['a', 'é', '€']), "aé€");
    assert_eq!(join_text("ab", "cd"), "abcd");
    assert_eq!(join_text("", ""), "");
    let text = chars_of("Bearer x");
    assert!(starts_with_chars(&text, &chars_of("Bearer ")));
    assert!(starts_with_chars(&text, &chars_of("")));
    assert!(!starts_with_chars(&text, &chars_of("bearer ")));
    assert!(!starts_with_chars(&chars_of("Bea"), &chars_of("Bearer ")));
    assert_eq!(suffix_from(&text, 7), vec!['x']);
    assert_eq!(suffix_from(&text, 8), Vec::<char>::new());
    assert_eq!(suffix_from(&text, 0), text);
}

#[test]
fn classes() {
    for c in ['A', 'M', 'Z', 'É', 'Δ'] {
        assert!(char_in_class(CharClass::Uppercase, c), "{}", c);
        assert!(!char_in_class(CharClass::Lowercase, c), "{}", c);
    }
    for c in ['a', 'm', 'z', 'é', 'δ'] {
        assert!(char_in_class(CharClass::Lowercase, c), "{}", c);
        assert!(!char_in_class(CharClass::Uppercase, c), "{}", c);
    }
    for c in ['0', '5', '9', '٣', '½'] {
        assert!(char_in_class(CharClass::Number, c), "{}", c);
    }
    for c in ['@', '[', '`', '{', '/', ':', ' ', '~'] {
        assert!(!char_in_class(CharClass::Uppercase, c));
        assert!(!char_in_class(CharClass::Lowercase, c));
        assert!(!char_in_class(CharClass::Number, c));
    }
    for c in "!@#$%^&*()_+-=[]{}|;':\",./<>?".chars() {
        assert!(is_special(c), "{}", c);
        assert!(char_in_class(CharClass::Special, c));
    }
    for c in ['a', 'Z', '0', ' ', '~', '`', '\\', 'é'] {
        assert!(!is_special(c), "{}", c);
    }
    for c in 0u32..0x2ff {
        let c = char::from_u32(c).unwrap();
        assert_eq!(is_control(c), c.is_control());
    }
    assert!(contains_class(&vec!['a', 'B'], CharClass::Uppercase));
    assert!(!contains_class(&vec!['a', 'b'], CharClass::Uppercase));
    assert!(!contains_class(&vec![], CharClass::Special));
}
