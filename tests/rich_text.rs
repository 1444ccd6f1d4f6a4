use nsengine::rich_text::{Format, RichText};

fn shown(r: &RichText) -> String {
    r.text.iter().map(|(c, _)| *c).collect()
}

#[test]
fn plain_text_is_unchanged() {
    let r = RichText::new("hello\nworld");
    assert_eq!(shown(&r), "hello\nworld");
    assert!(r.formatting.is_empty());
    assert!(r.text.iter().all(|(_, link)| !link));
}

#[test]
fn link_label_is_shown() {
    let r = RichText::new("see [site](http://x.y) now");
    assert_eq!(shown(&r), "see site now");
    let flags: Vec<bool> = r.text.iter().map(|(_, l)| *l).collect();
    assert_eq!(flags[3], false);
    assert!(flags[4..8].iter().all(|l| *l));
    assert_eq!(flags[8], false);
    assert_eq!(r.formatting.len(), 1);
    let e = &r.formatting[0];
    assert_eq!((e.start, e.end), (3, 7));
    match &e.format {
        Format::Link(u) => assert_eq!(u, "http://x.y"),
    }
}

#[test]
fn later_links_shift_by_hidden_characters() {
    let r = RichText::new("[a](u) and\n[bc](vw)");
    assert_eq!(shown(&r), "a and\nbc");
    assert_eq!(r.formatting.len(), 2);
    // the first span clamps at zero
    assert_eq!((r.formatting[0].start, r.formatting[0].end), (0, 0));
    // '[' at 11, with the markup of the first link and one line break hidden before it
    assert_eq!((r.formatting[1].start, r.formatting[1].end), (4, 6));
    match &r.formatting[1].format {
        Format::Link(u) => assert_eq!(u, "vw"),
    }
}

#[test]
fn bracket_without_url_is_not_a_link() {
    let r = RichText::new("[x] y");
    // the label is dropped and only the character after `]` is kept
    assert_eq!(shown(&r), " y");
    assert!(r.formatting.is_empty());
}

#[test]
fn unterminated_link() {
    let r = RichText::new("ab[cd");
    assert_eq!(shown(&r), "abcd");
    assert_eq!(r.formatting.len(), 1);
    assert_eq!((r.formatting[0].start, r.formatting[0].end), (1, 3));
    match &r.formatting[0].format {
        Format::Link(u) => assert!(u.is_empty()),
    }
}
