use feddit_archivieren::numbers::{parse_u128, u128_to_string};
use feddit_archivieren::save::{read_save, write_save, Speicherstand};

#[test]
fn fresh_state_is_empty() {
    let s = Speicherstand::new();
    assert_eq!(s.url, "");
    assert!(s.post_ids.is_empty());
}

#[test]
fn save_text_has_url_line_then_one_id_per_line() {
    let s = Speicherstand { url: String::from("https://lemmy.ml/post/1"), post_ids: vec![1, 42] };
    assert_eq!(write_save(&s), "https://lemmy.ml/post/1\n1\n42\n");
}

#[test]
fn empty_state_still_writes_the_url_line() {
    let s = Speicherstand::new();
    assert_eq!(write_save(&s), "\n");
}

#[test]
fn loading_what_was_saved_gives_the_state_back() {
    let s = Speicherstand {
        url: String::from("https://lemmy.ml/api/v3/post/list"),
        post_ids: vec![0, 7, 123456789, 340282366920938463463374607431768211455],
    };
    let text = write_save(&s);
    let loaded = read_save(&text).expect("der Speicherstand muss wieder lesbar sein");
    assert_eq!(loaded.url, s.url);
    assert_eq!(loaded.post_ids, s.post_ids);
}

#[test]
fn empty_file_is_no_save() {
    assert!(read_save("").is_none());
}

#[test]
fn url_alone_is_a_save_without_ids() {
    let loaded = read_save("https://example.org").unwrap();
    assert_eq!(loaded.url, "https://example.org");
    assert!(loaded.post_ids.is_empty());
}

#[test]
fn blank_id_lines_are_skipped() {
    let loaded = read_save("url\n\n7\n\n").unwrap();
    assert_eq!(loaded.post_ids, vec![7]);
}

#[test]
fn non_numeric_id_line_rejects_the_save() {
    assert!(read_save("url\nabc\n").is_none());
    assert!(read_save("url\n12x\n").is_none());
    assert!(read_save("url\n-3\n").is_none());
}

#[test]
fn rendering_is_plain_decimal() {
    assert_eq!(u128_to_string(0), "0");
    assert_eq!(u128_to_string(9), "9");
    assert_eq!(u128_to_string(10), "10");
    assert_eq!(u128_to_string(123456789), "123456789");
    assert_eq!(
        u128_to_string(u128::MAX),
        "340282366920938463463374607431768211455"
    );
}

#[test]
fn parsing_accepts_digits_that_fit() {
    assert_eq!(parse_u128("0"), Some(0));
    assert_eq!(parse_u128("00123"), Some(123));
    assert_eq!(
        parse_u128("340282366920938463463374607431768211455"),
        Some(u128::MAX)
    );
}

#[test]
fn parsing_rejects_everything_else() {
    assert_eq!(parse_u128(""), None);
    assert_eq!(parse_u128("+1"), None);
    assert_eq!(parse_u128(" 1"), None);
    assert_eq!(parse_u128("1 "), None);
    assert_eq!(parse_u128("340282366920938463463374607431768211456"), None);
    assert_eq!(parse_u128("9999999999999999999999999999999999999990"), None);
}
