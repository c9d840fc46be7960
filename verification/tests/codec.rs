use rom_browser_scripts::codec::{url_decode, url_encode};

#[test]
fn encode_replaces_each_reserved_character() {
    assert_eq!(url_encode(" "), "%20");
    assert_eq!(url_encode("("), "%28");
    assert_eq!(url_encode(")"), "%29");
    assert_eq!(url_encode("+"), "%2B");
    assert_eq!(url_encode("&"), "%26");
    assert_eq!(url_encode("'"), "%27");
    assert_eq!(url_encode(","), "%2C");
}

#[test]
fn encode_keeps_document_order() {
    assert_eq!(url_encode("Foo (Bar)"), "Foo%20%28Bar%29");
    assert_eq!(
        url_encode("Sony - PlayStation 2 (Redump)"),
        "Sony%20-%20PlayStation%202%20%28Redump%29"
    );
    assert_eq!(url_encode("Tom & Jerry's, +1"), "Tom%20%26%20Jerry%27s%2C%20%2B1");
}

#[test]
fn encode_leaves_other_characters_alone() {
    assert_eq!(url_encode(""), "");
    assert_eq!(url_encode("abc-XYZ_09.zip"), "abc-XYZ_09.zip");
    assert_eq!(url_encode("100%#?/é"), "100%#?/é");
}

#[test]
fn decode_replaces_each_escape() {
    assert_eq!(url_decode("%20%28%29%2B%26%27%2C"), " ()+&',");
    assert_eq!(url_decode("Foo%20%28Bar%29/"), "Foo (Bar)/");
}

#[test]
fn decode_passes_other_escapes_through() {
    assert_eq!(url_decode("%23%25%2F"), "%23%25%2F");
    assert_eq!(url_decode("%2b%2c"), "%2b%2c");
    assert_eq!(url_decode("%2"), "%2");
    assert_eq!(url_decode("%"), "%");
    assert_eq!(url_decode("50%"), "50%");
    assert_eq!(url_decode("%2%2020"), "%2 20");
}

#[test]
fn decode_undoes_encode_on_reserved_characters() {
    let samples = [" ", "()", "+&',", ",,,   (((", "'&+)( ,", ") ) ) + + +"];
    for s in samples {
        assert_eq!(url_decode(&url_encode(s)), s);
    }
}

#[test]
fn decode_undoes_encode_on_escape_free_text() {
    let samples = ["Foo (Bar)", "a%b", "%% (x)", "50% + 50%", "Ratchet & Clank, Vol. 1"];
    for s in samples {
        assert_eq!(url_decode(&url_encode(s)), s);
    }
}

#[test]
fn decode_does_not_undo_encode_where_an_escape_stands_in_the_text() {
    assert_eq!(url_encode("%20"), "%20");
    assert_eq!(url_decode(&url_encode("%20")), " ");
}
