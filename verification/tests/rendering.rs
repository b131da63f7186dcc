use ansi_term::{Colour, Style};

use file_name::{
    Classify, Colours, Entry, ExtensionColours, FileColours, FileStyle, LinkTarget, NoFileColours,
    StyledFragment,
};

fn colours() -> Colours {
    Colours {
        normal: Colour::Fixed(1).normal(),
        directory: Colour::Fixed(2).normal(),
        symlink: Colour::Fixed(3).normal(),
        pipe: Colour::Fixed(4).normal(),
        block_device: Colour::Fixed(5).normal(),
        char_device: Colour::Fixed(6).normal(),
        socket: Colour::Fixed(7).normal(),
        special: Colour::Fixed(8).normal(),
        symlink_path: Colour::Fixed(9).normal(),
        normal_arrow: Colour::Fixed(10).normal(),
        broken_symlink: Colour::Fixed(11).normal(),
        broken_filename: Colour::Fixed(12).normal(),
        control_char: Colour::Fixed(13).normal(),
        broken_control_char: Colour::Fixed(14).normal(),
        executable_file: Colour::Fixed(15).normal(),
        plain: Style::default(),
    }
}

fn plain_file(name: &str, path: &str) -> Entry {
    Entry {
        name: name.to_string(),
        path: path.to_string(),
        has_parent_dir: true,
        is_directory: false,
        is_link: false,
        is_executable_file: false,
        is_pipe: false,
        is_socket: false,
        is_block_device: false,
        is_char_device: false,
        is_file: true,
    }
}

fn assert_frag(frag: &StyledFragment, text: &str, style: Style) {
    assert_eq!(frag.text, text);
    assert!(frag.style == style);
}

#[test]
fn plain_name_is_one_fragment() {
    let c = colours();
    let style = FileStyle { classify: Classify::JustFilenames, exts: NoFileColours };
    let entry = plain_file("notes.md", "notes.md");
    let bits = style.for_file(&entry, None, &c).paint();
    assert_eq!(bits.len(), 1);
    assert_frag(&bits[0], "\u{f48a}  notes.md", c.normal);
}

#[test]
fn broken_link_target_is_shown_in_broken_styles() {
    let c = colours();
    let style = FileStyle { classify: Classify::JustFilenames, exts: NoFileColours };
    let mut entry = plain_file("bad", "bad");
    entry.is_link = true;
    entry.is_file = false;
    let target = Some(LinkTarget::Broken("/tmp/missing".to_string()));
    let bits = style.for_file(&entry, target, &c).with_link_paths().paint();
    assert_eq!(bits.len(), 5);
    assert_frag(&bits[0], "\u{f15b}  bad", c.symlink);
    assert_frag(&bits[1], " ", c.plain);
    assert_frag(&bits[2], "->", c.broken_symlink);
    assert_frag(&bits[3], " ", c.plain);
    assert_frag(&bits[4], "/tmp/missing", c.broken_filename);
}

#[test]
fn resolved_link_target_is_rendered_after_an_arrow() {
    let c = colours();
    let style = FileStyle { classify: Classify::JustFilenames, exts: NoFileColours };
    let mut entry = plain_file("link", "link");
    entry.is_link = true;
    entry.is_file = false;
    let target_entry = plain_file("file.txt", "/data/file.txt");
    let target = Some(LinkTarget::Resolved(target_entry));
    let bits = style.for_file(&entry, target, &c).with_link_paths().paint();
    assert_eq!(bits.len(), 7);
    assert_frag(&bits[0], "\u{f15b}  link", c.symlink);
    assert_frag(&bits[1], " ", c.plain);
    assert_frag(&bits[2], "->", c.normal_arrow);
    assert_frag(&bits[3], " ", c.plain);
    assert_frag(&bits[4], "/data", c.symlink_path);
    assert_frag(&bits[5], "/", c.symlink_path);
    assert_frag(&bits[6], "\u{f48a}  file.txt", c.normal);
}

#[test]
fn resolved_target_with_empty_name_shows_only_the_arrow() {
    let c = colours();
    let style = FileStyle { classify: Classify::JustFilenames, exts: NoFileColours };
    let mut entry = plain_file("rootward", "rootward");
    entry.is_link = true;
    entry.is_file = false;
    let mut root = plain_file("", "/");
    root.is_directory = true;
    root.is_file = false;
    let bits = style.for_file(&entry, Some(LinkTarget::Resolved(root)), &c).with_link_paths().paint();
    // The root has no parent and no name: nothing follows the arrow.
    assert_eq!(bits.len(), 4);
    assert_frag(&bits[0], "\u{f15b}  rootward", c.symlink);
    assert_frag(&bits[1], " ", c.plain);
    assert_frag(&bits[2], "->", c.normal_arrow);
    assert_frag(&bits[3], " ", c.plain);
}

#[test]
fn unresolvable_link_target_shows_nothing() {
    let c = colours();
    let style = FileStyle { classify: Classify::JustFilenames, exts: NoFileColours };
    let mut entry = plain_file("odd", "odd");
    entry.is_link = true;
    entry.is_file = false;
    let bits = style.for_file(&entry, Some(LinkTarget::Failed), &c).with_link_paths().paint();
    assert_eq!(bits.len(), 1);
    assert_frag(&bits[0], "\u{f15b}  odd", c.symlink);
}

#[test]
fn directory_with_classify_gets_a_slash_suffix() {
    let c = colours();
    let style = FileStyle { classify: Classify::AddFileIndicators, exts: NoFileColours };
    let mut entry = plain_file("src", "src");
    entry.is_directory = true;
    entry.is_file = false;
    let bits = style.for_file(&entry, None, &c).paint();
    assert_eq!(bits.len(), 2);
    assert_frag(&bits[0], "\u{f115}  src", c.directory);
    assert_frag(&bits[1], "/", c.plain);
}

#[test]
fn classify_characters_follow_the_kind() {
    let c = colours();
    let style = FileStyle { classify: Classify::AddFileIndicators, exts: NoFileColours };

    let mut exe = plain_file("run", "run");
    exe.is_executable_file = true;
    let bits = style.for_file(&exe, None, &c).paint();
    assert_frag(&bits[1], "*", c.plain);

    let mut pipe = plain_file("fifo", "fifo");
    pipe.is_pipe = true;
    pipe.is_file = false;
    let bits = style.for_file(&pipe, None, &c).paint();
    assert_frag(&bits[1], "|", c.plain);

    let mut link = plain_file("ln", "ln");
    link.is_link = true;
    link.is_file = false;
    let bits = style.for_file(&link, None, &c).paint();
    assert_frag(&bits[1], "@", c.plain);

    let mut sock = plain_file("s", "s");
    sock.is_socket = true;
    sock.is_file = false;
    let bits = style.for_file(&sock, None, &c).paint();
    assert_frag(&bits[1], "=", c.plain);

    // A plain regular file has no class character.
    let reg = plain_file("data.bin", "data.bin");
    let bits = style.for_file(&reg, None, &c).paint();
    assert_eq!(bits.len(), 1);
}

#[test]
fn link_display_suppresses_the_classify_suffix() {
    let c = colours();
    let style = FileStyle { classify: Classify::AddFileIndicators, exts: NoFileColours };
    let mut entry = plain_file("ln", "ln");
    entry.is_link = true;
    entry.is_file = false;
    let target = Some(LinkTarget::Broken("/gone".to_string()));
    let bits = style.for_file(&entry, target, &c).with_link_paths().paint();
    // Arrow and target path, and no `@` anywhere.
    assert_eq!(bits.len(), 5);
    assert!(bits.iter().all(|b| b.text != "@"));
}

#[test]
fn empty_name_root_emits_only_the_parent_prefix() {
    let c = colours();
    let style = FileStyle { classify: Classify::JustFilenames, exts: NoFileColours };
    let mut entry = plain_file("", "/home/user");
    entry.has_parent_dir = false;
    let bits = style.for_file(&entry, None, &c).paint();
    assert_eq!(bits.len(), 2);
    assert_frag(&bits[0], "/home", c.symlink_path);
    assert_frag(&bits[1], "/", c.symlink_path);
}

#[test]
fn top_level_entry_gets_a_root_prefix() {
    let c = colours();
    let style = FileStyle { classify: Classify::JustFilenames, exts: NoFileColours };
    let mut entry = plain_file("etc", "/etc");
    entry.has_parent_dir = false;
    let bits = style.for_file(&entry, None, &c).paint();
    assert_eq!(bits.len(), 2);
    assert_frag(&bits[0], "/", c.symlink_path);
    assert_frag(&bits[1], "\u{f15b}  etc", c.normal);
}

#[test]
fn relative_top_level_entries_get_no_prefix() {
    let c = colours();
    let style = FileStyle { classify: Classify::JustFilenames, exts: NoFileColours };
    let mut entry = plain_file("notes.md", "notes.md");
    entry.has_parent_dir = false;
    let bits = style.for_file(&entry, None, &c).paint();
    assert_eq!(bits.len(), 1);
    assert_frag(&bits[0], "\u{f48a}  notes.md", c.normal);
}

#[test]
fn entries_inside_a_listed_directory_get_no_prefix() {
    let c = colours();
    let style = FileStyle { classify: Classify::JustFilenames, exts: NoFileColours };
    let entry = plain_file("user", "/home/user");
    let bits = style.for_file(&entry, None, &c).paint();
    assert_eq!(bits.len(), 1);
    assert_frag(&bits[0], "\u{f15b}  user", c.normal);
}

#[test]
fn control_characters_split_the_name_into_escaped_fragments() {
    let c = colours();
    let style = FileStyle { classify: Classify::JustFilenames, exts: NoFileColours };
    let entry = plain_file("a\nb", "a\nb");
    let bits = style.for_file(&entry, None, &c).paint();
    // Icon glyph, two spaces, then each character on its own; the
    // newline appears escaped in the control style.
    assert_eq!(bits.len(), 6);
    assert_frag(&bits[0], "\u{f15b}", c.normal);
    assert_frag(&bits[1], " ", c.normal);
    assert_frag(&bits[2], " ", c.normal);
    assert_frag(&bits[3], "a", c.normal);
    assert_frag(&bits[4], "\\n", c.control_char);
    assert_frag(&bits[5], "b", c.normal);
}

#[test]
fn control_characters_take_their_escaped_spellings() {
    let c = colours();
    let style = FileStyle { classify: Classify::JustFilenames, exts: NoFileColours };
    let entry = plain_file("x\tq\u{1b}", "x");
    let bits = style.for_file(&entry, None, &c).paint();
    assert_eq!(bits.len(), 7);
    assert_frag(&bits[3], "x", c.normal);
    assert_frag(&bits[4], "\\t", c.control_char);
    assert_frag(&bits[5], "q", c.normal);
    assert_frag(&bits[6], "\\u{1b}", c.control_char);
}

#[test]
fn broken_target_paths_escape_in_the_broken_control_style() {
    let c = colours();
    let style = FileStyle { classify: Classify::JustFilenames, exts: NoFileColours };
    let mut entry = plain_file("b", "b");
    entry.is_link = true;
    entry.is_file = false;
    let target = Some(LinkTarget::Broken("a\nc".to_string()));
    let bits = style.for_file(&entry, target, &c).with_link_paths().paint();
    assert_eq!(bits.len(), 7);
    assert_frag(&bits[4], "a", c.broken_filename);
    assert_frag(&bits[5], "\\n", c.broken_control_char);
    assert_frag(&bits[6], "c", c.broken_filename);
}

#[test]
fn style_resolution_is_deterministic() {
    let c = colours();
    let style = FileStyle { classify: Classify::JustFilenames, exts: NoFileColours };
    let mut entry = plain_file("dev", "dev");
    entry.is_block_device = true;
    entry.is_file = false;
    let name = style.for_file(&entry, None, &c);
    let first = name.style();
    let second = name.style();
    assert!(first == second);
    assert!(first == c.block_device);
}

#[test]
fn structural_kind_beats_the_extension_map() {
    let c = colours();
    let red = Colour::Fixed(196).normal();
    let exts = ExtensionColours { mappings: vec![("zip".to_string(), red)] };
    let style = FileStyle { classify: Classify::JustFilenames, exts };
    let mut dir = plain_file("bundle.zip", "bundle.zip");
    dir.is_directory = true;
    dir.is_file = false;
    assert!(style.for_file(&dir, None, &c).style() == c.directory);

    // The same name as a plain regular file does take the mapped colour.
    let reg = plain_file("bundle.zip", "bundle.zip");
    assert!(style.for_file(&reg, None, &c).style() == red);
}

#[test]
fn broken_link_name_is_tinted_when_targets_are_hidden() {
    let c = colours();
    let style = FileStyle { classify: Classify::JustFilenames, exts: NoFileColours };
    let mut entry = plain_file("bad", "bad");
    entry.is_link = true;
    entry.is_file = false;
    let target = Some(LinkTarget::Broken("/tmp/missing".to_string()));
    let name = style.for_file(&entry, target, &c);
    // Targets hidden: the name itself takes the broken-link colour.
    assert!(name.style() == c.broken_symlink);
    let bits = name.paint();
    assert_eq!(bits.len(), 1);
    assert_frag(&bits[0], "\u{f15b}  bad", c.broken_symlink);
}

#[test]
fn unknown_kinds_fall_to_the_special_colour() {
    let c = colours();
    let style = FileStyle { classify: Classify::JustFilenames, exts: NoFileColours };
    let mut odd = plain_file("mystery", "mystery");
    odd.is_file = false;
    assert!(style.for_file(&odd, None, &c).style() == c.special);
}

#[test]
fn first_source_of_a_pair_wins() {
    let c = colours();
    let red = Colour::Fixed(196).normal();
    let green = Colour::Fixed(46).normal();
    let blue = Colour::Fixed(21).normal();
    let a = ExtensionColours { mappings: vec![("rs".to_string(), red)] };
    let b = ExtensionColours {
        mappings: vec![("rs".to_string(), green), ("go".to_string(), blue)],
    };
    let pair = (a, b);
    assert!(pair.colour_file(&plain_file("main.rs", "main.rs")) == Some(red));
    assert!(pair.colour_file(&plain_file("main.go", "main.go")) == Some(blue));
    assert!(pair.colour_file(&plain_file("main.c", "main.c")) == None);
}

#[test]
fn targets_are_not_kept_for_entries_that_are_no_links() {
    let c = colours();
    let style = FileStyle { classify: Classify::JustFilenames, exts: NoFileColours };
    let entry = plain_file("plain.txt", "plain.txt");
    let target = Some(LinkTarget::Broken("/gone".to_string()));
    let bits = style.for_file(&entry, target, &c).with_link_paths().paint();
    // No arrow appears: the target was dropped at construction.
    assert_eq!(bits.len(), 1);
    assert_frag(&bits[0], "\u{f48a}  plain.txt", c.normal);
}

#[test]
fn default_classify_mode_is_names_only() {
    assert!(Classify::default() == Classify::JustFilenames);
}
