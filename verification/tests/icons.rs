use file_name::icon_for;

#[test]
fn grouped_extensions_share_a_glyph() {
    // `tex` and `styl` sit in one rule, evaluated before the later
    // single-extension `tex` rule, so both names get that rule's glyph.
    assert_eq!(icon_for("a.tex", false), icon_for("a.styl", false));
    assert_eq!(icon_for("a.tex", false), "\u{e600}  ");
    assert_eq!(icon_for("a.stylus", false), "\u{e600}  ");
}

#[test]
fn lookup_is_case_sensitive() {
    assert_eq!(icon_for("model.RData", false), "\u{f25d}  ");
    assert_eq!(icon_for("model.rdata", false), "\u{f15b}  ");
    assert_eq!(icon_for("notes.MD", false), "\u{f15b}  ");
}

#[test]
fn directories_ignore_their_extension() {
    assert_eq!(icon_for("archive.zip", true), "\u{f115}  ");
    assert_eq!(icon_for("src", true), "\u{f115}  ");
    assert_eq!(icon_for("", true), "\u{f115}  ");
}

#[test]
fn extension_is_the_part_after_the_last_dot() {
    assert_eq!(icon_for("backup.tar.gz", false), "\u{f410}  ");
    assert_eq!(icon_for("notes.md", false), "\u{f48a}  ");
    assert_eq!(icon_for("main.go", false), "\u{e626}  ");
    assert_eq!(icon_for("script.ts", false), "\u{e628}  ");
}

#[test]
fn dotless_names_are_keyed_whole() {
    // A bare name is its own key: `Rakefile` appears in the ruby group.
    assert_eq!(icon_for("Rakefile", false), "\u{e21e}  ");
    assert_eq!(icon_for("Gemfile", false), "\u{e21e}  ");
    assert_eq!(icon_for("bad", false), "\u{f15b}  ");
}

#[test]
fn unknown_and_empty_keys_fall_to_the_default() {
    assert_eq!(icon_for("x.unknownext", false), "\u{f15b}  ");
    assert_eq!(icon_for("trailing.", false), "\u{f15b}  ");
    assert_eq!(icon_for("", false), "\u{f15b}  ");
}

#[test]
fn earlier_rules_shadow_later_ones() {
    // `ini` sits in an early group that shares the yaml glyph, not in a
    // later one of its own.
    assert_eq!(icon_for("setup.ini", false), "\u{f481}  ");
    assert_eq!(icon_for("config.yml", false), "\u{f481}  ");
}
