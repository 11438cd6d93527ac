use repo_sync::ParseError;
use repo_sync::parse_settings;
use repo_sync::settings_usable;

#[test]
fn parses_plain_document() {
    let text = "<settings><url>https://example.com/r.git</url><path>/tmp/r</path><branch>main</branch></settings>";
    let s = parse_settings(text).unwrap();
    assert_eq!(s.url, "https://example.com/r.git");
    assert_eq!(s.path, "/tmp/r");
    assert_eq!(s.branch, "main");
}

#[test]
fn parses_with_declaration_and_whitespace() {
    let text = "  <?xml version=\"1.0\" encoding=\"UTF-8\"?>\n<settings>\n  <url>u</url>\n  <path>p</path>\n  <branch>b</branch>\n</settings>\n";
    let s = parse_settings(text).unwrap();
    assert_eq!(s.url, "u");
    assert_eq!(s.path, "p");
    assert_eq!(s.branch, "b");
}

#[test]
fn parses_fields_in_any_order() {
    let text = "<s><branch>dev</branch><path>here</path><url>there</url></s>";
    let s = parse_settings(text).unwrap();
    assert_eq!(s.url, "there");
    assert_eq!(s.path, "here");
    assert_eq!(s.branch, "dev");
}

#[test]
fn skips_unknown_fields() {
    let text = "<s><url>u</url><note>ignored</note><path>p</path><branch>b</branch></s>";
    let s = parse_settings(text).unwrap();
    assert_eq!(s.url, "u");
    assert_eq!(s.path, "p");
    assert_eq!(s.branch, "b");
}

#[test]
fn keeps_field_text_verbatim() {
    let text = "<s><url> padded </url><path>a b</path><branch>x-y_z.1</branch></s>";
    let s = parse_settings(text).unwrap();
    assert_eq!(s.url, " padded ");
    assert_eq!(s.path, "a b");
    assert_eq!(s.branch, "x-y_z.1");
}

#[test]
fn empty_field_text_is_allowed_by_the_grammar() {
    let text = "<s><url></url><path>p</path><branch>b</branch></s>";
    let s = parse_settings(text).unwrap();
    assert_eq!(s.url, "");
    assert!(!settings_usable(&s));
}

#[test]
fn rejects_empty_text() {
    assert_eq!(parse_settings("").unwrap_err(), ParseError::Malformed);
}

#[test]
fn rejects_text_without_root() {
    assert_eq!(parse_settings("url=x path=y branch=z").unwrap_err(), ParseError::Malformed);
}

#[test]
fn rejects_unclosed_root() {
    let text = "<s><url>u</url><path>p</path><branch>b</branch>";
    assert_eq!(parse_settings(text).unwrap_err(), ParseError::Malformed);
}

#[test]
fn rejects_unterminated_declaration() {
    assert_eq!(parse_settings("<?xml version=\"1.0\"").unwrap_err(), ParseError::Malformed);
}

#[test]
fn rejects_mismatched_element_tag() {
    let text = "<s><url>u</path><path>p</path><branch>b</branch></s>";
    assert_eq!(parse_settings(text).unwrap_err(), ParseError::MismatchedTag);
}

#[test]
fn rejects_mismatched_root_tag() {
    let text = "<s><url>u</url><path>p</path><branch>b</branch></t>";
    assert_eq!(parse_settings(text).unwrap_err(), ParseError::MismatchedTag);
}

#[test]
fn rejects_duplicate_field() {
    let text = "<s><url>u</url><url>v</url><path>p</path><branch>b</branch></s>";
    assert_eq!(parse_settings(text).unwrap_err(), ParseError::DuplicateField);
}

#[test]
fn rejects_missing_field() {
    let text = "<s><url>u</url><path>p</path></s>";
    assert_eq!(parse_settings(text).unwrap_err(), ParseError::MissingField);
}

#[test]
fn rejects_trailing_content() {
    let text = "<s><url>u</url><path>p</path><branch>b</branch></s>extra";
    assert_eq!(parse_settings(text).unwrap_err(), ParseError::Malformed);
}

#[test]
fn rejects_attributes_on_elements() {
    let text = "<s><url kind=\"git\">u</url><path>p</path><branch>b</branch></s>";
    assert_eq!(parse_settings(text).unwrap_err(), ParseError::Malformed);
}

#[test]
fn usable_needs_url_and_path() {
    let ok = parse_settings("<s><url>u</url><path>p</path><branch></branch></s>").unwrap();
    assert!(settings_usable(&ok));
    let no_url = parse_settings("<s><url></url><path>p</path><branch>b</branch></s>").unwrap();
    assert!(!settings_usable(&no_url));
    let no_path = parse_settings("<s><url>u</url><path></path><branch>b</branch></s>").unwrap();
    assert!(!settings_usable(&no_path));
}
