use rom_browser_scripts::codec::url_encode;
use rom_browser_scripts::listing::{
    has_scheme, listing_entries, parse_items_from_index, present_groups, DIRECTORY_PATTERN,
    FILE_PATTERN,
};
use rom_browser_scripts::model::{DirectoryItem, ItemKind};

fn parse(html: &str) -> Vec<DirectoryItem> {
    parse_items_from_index(html).expect("both patterns compile")
}

fn strings(list: &[&str]) -> Vec<String> {
    list.iter().map(|s| s.to_string()).collect()
}

#[test]
fn directory_with_reserved_characters_is_decoded() {
    let items = parse(r#"<a href="Foo (Bar)/">Foo (Bar)/</a> <a href="?C=N;O=D/">Name</a>"#);
    assert_eq!(items.len(), 1);
    assert_eq!(items[0].item_type, ItemKind::Directory);
    assert_eq!(items[0].name, "Foo (Bar)");
    assert_eq!(items[0].href, "Foo (Bar)/");
    assert_eq!(url_encode(&items[0].href), "Foo%20%28Bar%29/");
    assert_eq!(items[0].size, None);
}

#[test]
fn encoded_directory_keeps_its_raw_target() {
    let items = parse(r#"<a href="Foo%20%28Bar%29/">Foo (Bar)/</a>"#);
    assert_eq!(items.len(), 1);
    assert_eq!(items[0].name, "Foo (Bar)");
    assert_eq!(items[0].href, "Foo%20%28Bar%29/");
}

#[test]
fn parent_link_gives_no_directory() {
    let items = parse(r#"<a href="Game.zip">Game.zip</a><a href="../">Up</a>"#);
    assert_eq!(items.len(), 1);
    assert_eq!(items[0].item_type, ItemKind::File);
    assert_eq!(items[0].name, "Game.zip");
    assert_eq!(items[0].href, "Game.zip");
    assert_eq!(items[0].size, None);
}

#[test]
fn sort_links_are_left_out() {
    let html = r#"<a href="?C=N;O=D">Name</a><a href="?C=M;O=A/">Date</a>
        <a href="x?C=S.zip">Size</a><a href="Real/">Real/</a>"#;
    let items = parse(html);
    assert_eq!(items.len(), 1);
    assert_eq!(items[0].href, "Real/");
}

#[test]
fn absolute_and_external_links_are_left_out() {
    let html = r#"<a href="/files/">root</a><a href="https://example.org/a/">ext</a>
        <a href="http://example.org/b.zip">ext</a><a href="/c.7z">abs</a>
        <a href="ok/">ok</a><a href="ok.7z">ok</a>"#;
    let items = parse(html);
    assert_eq!(items.len(), 2);
    assert_eq!(items[0].href, "ok/");
    assert_eq!(items[0].item_type, ItemKind::Directory);
    assert_eq!(items[1].href, "ok.7z");
    assert_eq!(items[1].item_type, ItemKind::File);
}

#[test]
fn any_scheme_makes_a_link_external() {
    let html = r#"<a href="ftp://mirror.example/pub/">m</a><a href="https://example.org/x.zip">x</a><a href="/files/">root</a>"#;
    assert!(parse(html).is_empty());
    let more = r#"<a href="magnet:?xt=urn:btih:abc/">m</a><a href="file:///c/roms.zip">f</a>
        <a href="svn+ssh://host/repo/">s</a><a href="x-1.2:thing.7z">x</a><a href="a:/">a</a>"#;
    assert!(parse(more).is_empty());
}

#[test]
fn names_that_only_look_like_a_scheme_are_kept() {
    let html = r#"<a href="httpd/">1</a><a href="http/">2</a><a href="httpx.zip">3</a>
        <a href="Halo 2: Anniversary.zip">4</a><a href="2nd:edition/">5</a><a href=":colon/">6</a>
        <a href="a_b:c.zip">7</a><a href="dir/with:colon/">8</a><a href="ftp.zip">9</a>"#;
    let hrefs: Vec<String> = parse(html).into_iter().map(|i| i.href).collect();
    assert_eq!(
        hrefs,
        vec![
            "httpd/",
            "http/",
            "2nd:edition/",
            ":colon/",
            "dir/with:colon/",
            "httpx.zip",
            "Halo 2: Anniversary.zip",
            "a_b:c.zip",
            "ftp.zip",
        ]
    );
}

#[test]
fn scheme_is_a_letter_then_scheme_characters_then_a_colon() {
    for href in ["http:", "a:", "Z9+-.:", "ftp://x", "mailto:me", "C:\\roms"] {
        assert!(has_scheme(&href.chars().collect()), "{:?}", href);
    }
    for href in ["", ":", "a", "http", "1a:", "+a:", "a b:", "a/b:", "a_b:", "é:", " a:", "a%3A"] {
        assert!(!has_scheme(&href.chars().collect()), "{:?}", href);
    }
}

#[test]
fn target_inside_a_longer_target_is_no_directory() {
    let items = parse(r#"<a href="sub/b.zip">b</a>"#);
    assert_eq!(items.len(), 1);
    assert_eq!(items[0].item_type, ItemKind::File);
    assert_eq!(items[0].href, "sub/b.zip");
    assert_eq!(items[0].name, "sub/b.zip");
    assert!(parse(r#"<a href="sub/readme.txt">r</a><a href="dir/unterminated"#).is_empty());
}

#[test]
fn every_target_is_a_piece_of_the_page() {
    let html = r#"<a href="A%20B/">x</a><a href='single/'>y</a><a href="c.zip">z</a>"#;
    let items = parse(html);
    assert_eq!(items.len(), 2);
    for item in items {
        assert!(html.contains(&item.href));
    }
}

#[test]
fn directories_come_before_files() {
    let html = r#"<a href="b.zip">b</a><a href="A/">A</a><a href="c.7z">c</a><a href="D/">D</a>"#;
    let items = parse(html);
    let hrefs: Vec<&str> = items.iter().map(|i| i.href.as_str()).collect();
    assert_eq!(hrefs, vec!["A/", "D/", "b.zip", "c.7z"]);
}

#[test]
fn extension_is_matched_as_written() {
    let items = parse(r#"<a href="a.ZIP">a</a><a href="b.Zip">b</a><a href="c.7Z">c</a><a href="d.rar">d</a>"#);
    assert!(items.is_empty());
}

#[test]
fn text_without_anchors_gives_an_empty_listing() {
    assert!(parse("").is_empty());
    assert!(parse("<html><body>nothing here</body></html>").is_empty());
    assert!(parse(r#"<a href="unterminated.zip>"#).is_empty());
    assert!(parse(r#"<a href=".zip">no stem</a>"#).is_empty());
}

#[test]
fn trailing_slashes_are_all_trimmed_from_the_name() {
    let items = parse(r#"<a href="deep/dir//">x</a>"#);
    assert_eq!(items.len(), 1);
    assert_eq!(items[0].name, "deep/dir");
    assert_eq!(items[0].href, "deep/dir//");
}

#[test]
fn file_names_are_decoded() {
    let items = parse(r#"<a href="Tom%20%26%20Jerry%2C%20Vol.%201%20%28USA%29.zip">x</a>"#);
    assert_eq!(items.len(), 1);
    assert_eq!(items[0].name, "Tom & Jerry, Vol. 1 (USA).zip");
}

#[test]
fn entries_from_candidates_hold_to_every_rule() {
    let dirs = strings(&["a/", "no-slash", "../", "/abs/", "http://h/", "x?C=1/", "b%20c/"]);
    let files = strings(&["a.zip", "b.7z", "c.txt", "/d.zip", "ftp:x.zip", "e?C=.zip", "f.zip/"]);
    let items = listing_entries(&dirs, &files);
    let got: Vec<(String, String, ItemKind)> =
        items.iter().map(|i| (i.name.clone(), i.href.clone(), i.item_type)).collect();
    assert_eq!(
        got,
        vec![
            ("a".to_string(), "a/".to_string(), ItemKind::Directory),
            ("b c".to_string(), "b%20c/".to_string(), ItemKind::Directory),
            ("a.zip".to_string(), "a.zip".to_string(), ItemKind::File),
            ("b.7z".to_string(), "b.7z".to_string(), ItemKind::File),
        ]
    );
}

#[test]
fn groups_that_took_no_part_are_dropped() {
    let groups = vec![Some("a".to_string()), None, Some("b".to_string()), None];
    assert_eq!(present_groups(groups), strings(&["a", "b"]));
    assert!(present_groups(Vec::new()).is_empty());
}

#[test]
fn patterns_end_with_the_closing_quote() {
    assert_eq!(DIRECTORY_PATTERN, "href=\"([^\"]+/)\"");
    assert_eq!(FILE_PATTERN, "href=\"([^\"]+\\.(?:zip|7z))\"");
}

#[test]
fn kind_names_are_the_exported_ones() {
    assert_eq!(ItemKind::Directory.as_str(), "directory");
    assert_eq!(ItemKind::File.as_str(), "file");
}

#[test]
fn apache_index_page_is_parsed() {
    let html = r#"<table><tr><th><a href="?C=N;O=D">Name</a></th><th><a href="?C=M;O=A">Last modified</a></th></tr>
<tr><td><a href="/files/">Parent Directory</a></td></tr>
<tr><td><a href="../">../</a></td></tr>
<tr><td><a href="Sony%20-%20PlayStation%202/">Sony - PlayStation 2/</a></td><td>-</td></tr>
<tr><td><a href="Nintendo%20-%20GameCube/">Nintendo - GameCube/</a></td><td>-</td></tr>
<tr><td><a href="Halo%20%28USA%29.zip">Halo (USA).zip</a></td><td>1.2G</td></tr>
</table>"#;
    let items = parse(html);
    let got: Vec<(&str, ItemKind)> = items.iter().map(|i| (i.name.as_str(), i.item_type)).collect();
    assert_eq!(
        got,
        vec![
            ("Sony - PlayStation 2", ItemKind::Directory),
            ("Nintendo - GameCube", ItemKind::Directory),
            ("Halo (USA).zip", ItemKind::File),
        ]
    );
}
