use crypto_normalizer::text::{
    chars_of, final_piece, find_char, find_char_from, has_char, has_number_suffix, has_prefix,
    has_suffix, has_text, is_ascii_chars, joined, longer_than, lowercased, nth_piece,
    occurs_at_exec, rendered, replaced, same_text, slice, string_of, upper_paired, uppercased,
    width, without_bytes, without_suffix,
};

fn text(s: &str) -> Vec<char> {
    chars_of(s)
}

#[test]
fn strings_and_characters() {
    assert_eq!(vec!['a', 'é', 'z'], chars_of("aéz"));
    assert_eq!("aéz", string_of(&vec!['a', 'é', 'z']));
    assert_eq!("", string_of(&Vec::new()));
    assert!(same_text(&text("abc"), &text("abc")));
    assert!(!same_text(&text("abc"), &text("abd")));
    assert!(!same_text(&text("abc"), &text("ab")));
    assert_eq!(text("bc"), slice(&text("abcd"), 1, 3));
    assert_eq!(text(""), slice(&text("abcd"), 2, 2));
    assert_eq!(text("abcd"), joined(&text("ab"), &text("cd")));
    assert_eq!(text("ab/cd"), rendered(&text("ab"), &text("cd")));
    assert_eq!(text("a/b/c"), replaced(&text("a_b_c"), '_', '/'));
    assert_eq!(text("ABC1É"), uppercased(&text("aBc1é")));
    assert_eq!(text("abc1é"), lowercased(&text("aBC1É")));
    assert_eq!(text("AZ{`@[_/09 ~"), uppercased(&text("az{`@[_/09 ~")));
    assert_eq!(text("az{`@[_/09 ~"), lowercased(&text("AZ{`@[_/09 ~")));
    assert_eq!(text("SS"), uppercased(&text("ß")));
    assert_eq!(text(""), uppercased(&text("")));
    assert!(is_ascii_chars(&text("abc~")));
    assert!(is_ascii_chars(&text("")));
    assert!(!is_ascii_chars(&text("abé")));
    assert_eq!(Some("A/B".to_string()), upper_paired(Some((text("a"), text("b")))));
    assert_eq!(None, upper_paired(None));
}

#[test]
fn searching() {
    let s = text("BTCUSDT_UMCBL");
    assert!(has_prefix(&s, "BTC"));
    assert!(has_prefix(&s, ""));
    assert!(!has_prefix(&s, "TC"));
    assert!(!has_prefix(&text("BT"), "BTC"));
    assert!(has_suffix(&s, "_UMCBL"));
    assert!(has_suffix(&s, ""));
    assert!(!has_suffix(&s, "_UMCB"));
    assert!(!has_suffix(&text("BL"), "MCBL"));
    assert!(has_text(&s, "USDT"));
    assert!(has_text(&s, "BTC"));
    assert!(has_text(&s, "CBL"));
    assert!(has_text(&s, ""));
    assert!(!has_text(&s, "USDC"));
    assert!(!has_text(&text("ab"), "abc"));
    assert!(occurs_at_exec(&s, &text("USDT"), 3));
    assert!(!occurs_at_exec(&s, &text("USDT"), 4));
    assert!(!occurs_at_exec(&s, &text("USDT"), 11));
    assert!(has_char(&s, '_'));
    assert!(!has_char(&s, '-'));
    assert_eq!(7, find_char(&s, '_'));
    assert_eq!(13, find_char(&s, '-'));
    assert_eq!(2, find_char_from(&text("a_b_c"), '_', 2) - 1);
    assert_eq!(5, find_char_from(&text("a_b_c"), '_', 4));
    assert_eq!(text("BTCUSDT"), without_suffix(&s, "_UMCBL"));
}

#[test]
fn pieces() {
    let s = text("swap/depth5/x");
    assert_eq!(Some(text("swap")), nth_piece(&s, '/', 0));
    assert_eq!(Some(text("depth5")), nth_piece(&s, '/', 1));
    assert_eq!(Some(text("x")), nth_piece(&s, '/', 2));
    assert_eq!(None, nth_piece(&s, '/', 3));
    assert_eq!(Some(text("")), nth_piece(&text("a/"), '/', 1));
    assert_eq!(Some(text("")), nth_piece(&text(""), '/', 0));
    assert_eq!(None, nth_piece(&text(""), '/', 1));
    assert_eq!(text("x"), final_piece(&s, '/'));
    assert_eq!(text("plain"), final_piece(&text("plain"), '/'));
    assert_eq!(text(""), final_piece(&text("a/"), '/'));
}

#[test]
fn bytes() {
    assert_eq!(1, width('a'));
    assert_eq!(2, width('é'));
    assert_eq!(3, width('€'));
    assert_eq!(4, width('𝄞'));
    assert!(longer_than(&text("abcdefgh"), 7));
    assert!(!longer_than(&text("abcdefg"), 7));
    assert!(longer_than(&text("abcé€"), 7));
    assert!(!longer_than(&text(""), 0));
    assert_eq!(Some(text("ab")), without_bytes(&text("abcd"), 2));
    assert_eq!(Some(text("ab")), without_bytes(&text("abé"), 2));
    assert_eq!(None, without_bytes(&text("abé"), 1));
    assert_eq!(Some(text("")), without_bytes(&text("é€"), 5));
    assert_eq!(None, without_bytes(&text("abc"), 4));
    assert_eq!(Some(text("abc")), without_bytes(&text("abc"), 0));
    assert!(has_number_suffix(&text("BTCUSDZ22")));
    assert!(has_number_suffix(&text("+5")));
    assert!(has_number_suffix(&text("-5")));
    assert!(!has_number_suffix(&text("5")));
    assert!(!has_number_suffix(&text("5+")));
    assert!(!has_number_suffix(&text("a5")));
    assert!(!has_number_suffix(&text("")));
}
