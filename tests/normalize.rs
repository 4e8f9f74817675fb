use soundboard::normalize::{fts_prepare_search, FtsText};
use soundboard::normalize::{clean_tag, fts_clean_text, trim_text, Tags};

#[test]
fn fts_clean_text_test() {
    assert_eq!("i love star wars", fts_clean_text("I love star-wars!  "));
    assert_eq!("i think its borked", fts_clean_text("I think it's borked!?!?!?!?"));
    assert_eq!("i like code", fts_clean_text(r"I like !@#$%^&*(_){}[]/\., code"));
    assert_eq!("this is a single line", fts_clean_text("This\nis\na\nsingle\nline\n"));
}

#[test]
fn normalize_examples() {
    assert_eq!(fts_clean_text("I love star-wars!  "), "i love star wars");
    assert_eq!(fts_clean_text("It's broken!?"), "its broken");
    assert_eq!(fts_clean_text(""), "");
    assert_eq!(fts_clean_text("!!!"), "");
    assert_eq!(fts_clean_text("ÉCOLE 42"), "cole 42");
}

#[test]
fn tags_test() {
    let tags = Tags::from_text("tag-1, tag_2, tag3, !#$%^&tag4&*(()\ttag5");
    assert_eq!(&vec!["tag-1", "tag_2", "tag3", "tag4", "tag5"], tags.inner());
}

#[test]
fn tags_drop_empty_words() {
    let tags = Tags::from_text("  !!!  star   ?? wars ");
    assert_eq!(&vec!["star", "wars"], tags.inner());
    assert_eq!(tags.to_text(), "star wars");
    assert_eq!(tags.len(), 2);
    assert_eq!(Tags::new().len(), 0);
    assert_eq!(Tags::from_text("").to_text(), "");
}

#[test]
fn clean_tag_keeps_hyphen_and_underscore() {
    assert_eq!(clean_tag("!r2-d2_Droid?"), "r2-d2_Droid");
    assert_eq!(clean_tag("a!b"), "a b");
    assert_eq!(trim_text("\u{3000} x \t"), "x");
}

#[test]
fn prefix_queries_star_each_word() {
    assert_eq!(fts_prepare_search("star  wars"), "star* wars*");
    assert_eq!(fts_prepare_search("   "), "");
    assert_eq!("It's a Trap!".fts_prepare_search(), "its* a* trap*");
    assert_eq!(String::from("Obi-Wan").fts_clean(), "obi wan");
}

#[test]
fn tags_hold_only_tag_characters() {
    assert_eq!(Tags::from_text("a!b").inner(), &vec!["a", "b"]);
    assert_eq!(Tags::from_text("!!! ?").len(), 0);
    assert_eq!(Tags::from_text("Star-Wars r2_d2").inner(), &vec!["Star-Wars", "r2_d2"]);
    let stored = Tags::from_text("x.y z");
    assert_eq!(Tags::from_text(&stored.to_text()), stored);
}
