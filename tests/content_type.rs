use portserve::mime::{content_type, content_type_for_extension};

#[test]
fn resolves_known_extensions() {
    assert_eq!(content_type("/srv/www/a.jpg"), "image/jpeg");
    assert_eq!(content_type("/srv/www/a.jpeg"), "image/jpeg");
    assert_eq!(content_type("a.gif"), "image/gif");
    assert_eq!(content_type("dir/a.png"), "image/png");
    assert_eq!(content_type("doc.pdf"), "application/pdf");
    assert_eq!(content_type("index.htm"), "text/html; charset=utf8");
    assert_eq!(content_type("index.html"), "text/html; charset=utf8");
    assert_eq!(content_type("notes.txt"), "text/plain; charset=utf8");
}

#[test]
fn unknown_extension_is_utf8_text() {
    assert_eq!(content_type("/srv/www/a.unknownext"), "text/plain; charset=utf8");
    assert_eq!(content_type("a.JPG"), "text/plain; charset=utf8");
}

#[test]
fn missing_extension_is_text_without_charset() {
    assert_eq!(content_type("/srv/www/noext"), "text/plain");
    assert_eq!(content_type("/srv/www/.hidden"), "text/plain");
    assert_eq!(content_type(""), "text/plain");
}

#[test]
fn extension_is_taken_from_the_last_dot() {
    assert_eq!(content_type("archive.tar.png"), "image/png");
    assert_eq!(content_type("a.png.bak"), "text/plain; charset=utf8");
}

#[test]
fn table_by_extension() {
    assert_eq!(content_type_for_extension(&None), "text/plain");
    assert_eq!(content_type_for_extension(&Some("jpg".to_string())), "image/jpeg");
    assert_eq!(content_type_for_extension(&Some("html".to_string())), "text/html; charset=utf8");
    assert_eq!(content_type_for_extension(&Some("".to_string())), "text/plain; charset=utf8");
}
