use typst_bridge::preamble::add_fallback_font;

#[test]
fn preamble_is_three_lines_then_the_source() {
    let text = add_fallback_font("= Title\n".to_owned());
    assert_eq!(
        text,
        "#show math.equation: set text(font: \"STIX Two Math\")\n#show raw: set text(font: \"IBM Plex Mono\")\n#set text(font: (\"IBM Plex Sans\", \"LXGW WenKai Mono Lite\"))\n= Title\n"
    );
}

#[test]
fn preamble_before_an_empty_source() {
    let text = add_fallback_font(String::new());
    assert_eq!(text.lines().count(), 3);
    assert!(text.ends_with("\"LXGW WenKai Mono Lite\"))\n"));
}

#[test]
fn preamble_adds_as_many_lines_as_the_constant_says() {
    for user in ["", "x", "a\nb\n", "#set text(font: \"Other\")"] {
        let text = add_fallback_font(user.to_owned());
        let added = text.matches('\n').count() - user.matches('\n').count();
        assert_eq!(added, typst_bridge::preamble::PREAMBLE_LINES);
    }
}

#[test]
fn source_follows_the_preamble_verbatim() {
    let user = "#set text(font: \"Other\")\r\n  tabs\tand ünïcödé 💛 \\ % {}";
    let text = add_fallback_font(user.to_owned());
    assert!(text.ends_with(user));
    assert_eq!(
        &text[..text.len() - user.len()],
        add_fallback_font(String::new())
    );
}
