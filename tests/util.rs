use rs_lib_bot::util::{escape_markdown, TextBuilder};

#[test]
fn text_builder_works() {
    let text = TextBuilder::new()
        .text("prefix", "text", "suffix")
        .text_opt("prefix", &Some("text"), "suffix")
        .text_opt("prefix", &None as &Option<String>, "suffix")
        .build();
    assert_eq!("prefixtextsuffixprefixtextsuffix", text);
}

#[test]
fn escape_works() {
    let escaped = escape_markdown("a_b*c[d]e(f)g~h`i>j#k+l-m=n|o{p}q.r!s");
    assert_eq!(
        r#"a\_b\*c\[d\]e\(f\)g\~h\`i\>j\#k\+l\-m\=n\|o\{p\}q\.r\!s"#,
        escaped
    );
}

#[test]
fn text_builder_skips_absent_fragments() {
    let text = TextBuilder::new()
        .text("p1", "v1", "s1")
        .text_opt("p2", &Some("v2"), "s2")
        .text_opt("p3", &None as &Option<&str>, "s3")
        .build();
    assert_eq!("p1v1s1p2v2s2", text);
}

#[test]
fn text_builder_starts_empty() {
    assert_eq!("", TextBuilder::new().build());
    let owned = TextBuilder::new().text("", String::from("x"), "").build();
    assert_eq!("x", owned);
}

#[test]
fn escape_doubles_exactly_the_reserved_characters() {
    let input = "a_b*c[d]e(f)g~h`i>j#k+l-m=n|o{p}q.r!s";
    let escaped = escape_markdown(input);
    assert_eq!(input.len() + 18, escaped.len());
    assert_eq!("plain text, kept as is", escape_markdown("plain text, kept as is"));
    assert_eq!("", escape_markdown(""));
}

#[test]
fn escape_is_not_idempotent() {
    let once = escape_markdown("a.b");
    assert_eq!(r"a\.b", once);
    assert_eq!(r"a\\.b", escape_markdown(&once));
}

#[test]
fn escape_keeps_non_ascii() {
    assert_eq!(r"📦 \*ä\*", escape_markdown("📦 *ä*"));
}
