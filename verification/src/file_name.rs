//! The name renderer: from one entry, its resolved link target and the
//! rendering configuration to the ordered fragments of its displayable
//! name. A render emits, in this order: a parent-path prefix for entries
//! named directly, the icon glyph joined to the escaped name, and then
//! either a link-target display or a classification suffix — never both.

use vstd::prelude::*;

use crate::entry::{target_model, Entry, EntryModel, LinkTarget, LinkTargetModel};
use crate::fragment::{
    escape, escape_model, frag_views, lemma_frag_views_add, lemma_frag_views_push, FragmentModel,
    StyledFragment,
};
use crate::icons::{icon_for, icon_model};
use crate::paths::{parent_of, parent_of_path};
use crate::style::{Colours, FileColours};

verus! {

/// How link targets are displayed: hidden (they only tint a broken
/// link's own name) or written out after an arrow.
#[derive(PartialEq, Eq, Structural, Clone, Copy, Debug)]
pub enum LinkStyle {
    /// Show only file names; colour a broken link's name differently.
    JustFilenames,
    /// Follow each link with an arrow and its target's path.
    FullLinkPaths,
}

/// Whether to append a class character after a file name.
#[derive(PartialEq, Eq, Structural, Clone, Copy, Debug)]
pub enum Classify {
    /// Just the names.
    JustFilenames,
    /// Add a character for the file's class, where it has one.
    AddFileIndicators,
}

impl Default for Classify {
    fn default() -> (r: Classify)
        ensures
            r == Classify::JustFilenames,
    {
        Classify::JustFilenames
    }
}

/// A file-name factory: the per-session configuration from which a
/// renderer for each entry is made.
pub struct FileStyle<E: FileColours> {
    /// Whether to append file class characters to file names.
    pub classify: Classify,
    /// Mapping of file extensions to colours, to highlight regular
    /// files.
    pub exts: E,
}

/// Everything needed to display the name of one file.
pub struct FileName<'a, E: FileColours> {
    /// The entry being named.
    pub file: &'a Entry,
    /// The colours painting the name and its surrounding text.
    pub colours: &'a Colours,
    /// The file the entry points to, if it is a link.
    pub target: Option<LinkTarget>,
    /// How to display the link target.
    pub link_style: LinkStyle,
    /// Whether to append a class character.
    pub classify: Classify,
    /// Extension-based colours for files with no structural colour.
    pub exts: &'a E,
}

impl<E: FileColours> FileStyle<E> {
    /// Creates the renderer for one entry. The link target, resolved by
    /// the metadata collaborator, is kept only when the entry is a link.
    pub fn for_file<'a>(
        &'a self,
        file: &'a Entry,
        target: Option<LinkTarget>,
        colours: &'a Colours,
    ) -> (r: FileName<'a, E>)
        ensures
            r.file == file,
            r.colours == colours,
            r.link_style == LinkStyle::JustFilenames,
            r.classify == self.classify,
            r.exts == &self.exts,
            r.target == (if file.is_link {
                target
            } else {
                None::<LinkTarget>
            }),
    {
        FileName {
            file,
            colours,
            link_style: LinkStyle::JustFilenames,
            classify: self.classify,
            exts: &self.exts,
            target: if file.is_link {
                target
            } else {
                None
            },
        }
    }
}

/// The style the entry's kind alone assigns, in fixed precedence order;
/// none for a plain regular file.
pub open spec fn kind_style_model(f: EntryModel, colours: Colours) -> Option<ansi_term::Style> {
    if f.is_directory {
        Some(colours.directory)
    } else if f.is_executable_file {
        Some(colours.executable_file)
    } else if f.is_link {
        Some(colours.symlink)
    } else if f.is_pipe {
        Some(colours.pipe)
    } else if f.is_block_device {
        Some(colours.block_device)
    } else if f.is_char_device {
        Some(colours.char_device)
    } else if f.is_socket {
        Some(colours.socket)
    } else if !f.is_file {
        Some(colours.special)
    } else {
        None
    }
}

/// The one style painting the entry's name: the broken-link colour when
/// targets are hidden and the entry's target is broken; else the first
/// structural kind match; else the extension map's answer; else normal.
pub open spec fn style_model<E: FileColours>(
    f: EntryModel,
    target: Option<LinkTargetModel>,
    link_style: LinkStyle,
    colours: Colours,
    exts: &E,
) -> ansi_term::Style {
    if link_style == LinkStyle::JustFilenames && (target matches Some(
        LinkTargetModel::Broken(_),
    )) {
        colours.broken_symlink
    } else {
        match kind_style_model(f, colours) {
            Some(s) => s,
            None => match exts.colour_spec(f) {
                Some(s) => s,
                None => colours.normal,
            },
        }
    }
}

/// The fragments of a parent-path prefix: nothing for an empty parent,
/// a bare `/` for the root, and otherwise the escaped parent followed by
/// a `/`, all in the link-path style.
pub open spec fn parent_bits_model(parent: Seq<char>, colours: Colours) -> Seq<FragmentModel> {
    if parent.len() == 0 {
        Seq::empty()
    } else if parent == seq!['/'] {
        seq![FragmentModel { text: "/"@, style: colours.symlink_path }]
    } else {
        escape_model(parent, colours.symlink_path, colours.control_char).push(
            FragmentModel { text: "/"@, style: colours.symlink_path },
        )
    }
}

/// The parent-path prefix derived from an entry's own path.
pub open spec fn parent_part_model(f: EntryModel, colours: Colours) -> Seq<FragmentModel> {
    match parent_of(f.path) {
        Some(p) => parent_bits_model(p, colours),
        None => Seq::empty(),
    }
}

/// The prefix a render starts with: the parent-path prefix, but only
/// for entries not discovered inside a listed directory.
pub open spec fn head_model(f: EntryModel, colours: Colours) -> Seq<FragmentModel> {
    if !f.has_parent_dir {
        parent_part_model(f, colours)
    } else {
        Seq::empty()
    }
}

/// The fragments of the icon glyph joined to the escaped name, as one
/// coloured span.
pub open spec fn name_frags_model(
    f: EntryModel,
    style: ansi_term::Style,
    colours: Colours,
) -> Seq<FragmentModel> {
    escape_model(icon_model(f.name, f.is_directory) + f.name, style, colours.control_char)
}

/// The name part of a render: the icon and name span, absent for an
/// empty name.
pub open spec fn name_part_model<E: FileColours>(
    f: EntryModel,
    target: Option<LinkTargetModel>,
    link_style: LinkStyle,
    colours: Colours,
    exts: &E,
) -> Seq<FragmentModel> {
    if f.name.len() > 0 {
        name_frags_model(f, style_model(f, target, link_style, colours, exts), colours)
    } else {
        Seq::empty()
    }
}

/// The class character of an entry, by first match; none for a plain
/// non-executable regular file and for the remaining kinds.
pub open spec fn classify_model(f: EntryModel) -> Option<Seq<char>> {
    if f.is_executable_file {
        Some("*"@)
    } else if f.is_directory {
        Some("/"@)
    } else if f.is_pipe {
        Some("|"@)
    } else if f.is_link {
        Some("@"@)
    } else if f.is_socket {
        Some("="@)
    } else {
        None
    }
}

/// The classification suffix: one plain fragment holding the class
/// character, when classifying is on and the entry's kind has one.
pub open spec fn classify_tail_model(
    f: EntryModel,
    classify: Classify,
    colours: Colours,
) -> Seq<FragmentModel> {
    if classify == Classify::AddFileIndicators {
        match classify_model(f) {
            Some(c) => seq![FragmentModel { text: c, style: colours.plain }],
            None => Seq::empty(),
        }
    } else {
        Seq::empty()
    }
}

/// The link-target display: a padded arrow, then for a resolved target
/// its own parent prefix and name span (styled as a fresh render with
/// targets hidden and no classify suffix would style it); for a broken
/// target the escaped target path in the broken styles; nothing for a
/// target that could not be resolved at all.
pub open spec fn link_tail_model<E: FileColours>(
    t: LinkTargetModel,
    colours: Colours,
    exts: &E,
) -> Seq<FragmentModel> {
    match t {
        LinkTargetModel::Resolved(tgt) => seq![
            FragmentModel { text: " "@, style: colours.plain },
            FragmentModel { text: "->"@, style: colours.normal_arrow },
            FragmentModel { text: " "@, style: colours.plain },
        ] + parent_part_model(tgt, colours) + (if tgt.name.len() > 0 {
            name_frags_model(
                tgt,
                style_model(tgt, None, LinkStyle::FullLinkPaths, colours, exts),
                colours,
            )
        } else {
            Seq::empty()
        }),
        LinkTargetModel::Broken(p) => seq![
            FragmentModel { text: " "@, style: colours.plain },
            FragmentModel { text: "->"@, style: colours.broken_symlink },
            FragmentModel { text: " "@, style: colours.plain },
        ] + escape_model(p, colours.broken_filename, colours.broken_control_char),
        LinkTargetModel::Failed => Seq::empty(),
    }
}

/// Everything a render of one entry emits, in order: prefix, name span,
/// then either the link-target display (when targets are shown and one
/// is known) or the classification suffix.
pub open spec fn paint_model<E: FileColours>(
    f: EntryModel,
    target: Option<LinkTargetModel>,
    link_style: LinkStyle,
    classify: Classify,
    colours: Colours,
    exts: &E,
) -> Seq<FragmentModel> {
    head_model(f, colours) + name_part_model(f, target, link_style, colours, exts) + (
    match target {
        Some(t) => if link_style == LinkStyle::FullLinkPaths {
            link_tail_model(t, colours, exts)
        } else {
            classify_tail_model(f, classify, colours)
        },
        None => classify_tail_model(f, classify, colours),
    })
}

impl<'a, E: FileColours> FileName<'a, E> {
    /// Switches this renderer to display link targets with an arrow
    /// followed by their path.
    pub fn with_link_paths(self) -> (r: Self)
        ensures
            r.file == self.file,
            r.colours == self.colours,
            r.target == self.target,
            r.classify == self.classify,
            r.exts == self.exts,
            r.link_style == LinkStyle::FullLinkPaths,
    {
        let mut r = self;
        r.link_style = LinkStyle::FullLinkPaths;
        r
    }

    /// The style the entry's kind alone assigns.
    fn kind_style(&self) -> (r: Option<ansi_term::Style>)
        ensures
            r == kind_style_model(self.file@, *self.colours),
    {
        if self.file.is_directory {
            Some(self.colours.directory)
        } else if self.file.is_executable_file {
            Some(self.colours.executable_file)
        } else if self.file.is_link {
            Some(self.colours.symlink)
        } else if self.file.is_pipe {
            Some(self.colours.pipe)
        } else if self.file.is_block_device {
            Some(self.colours.block_device)
        } else if self.file.is_char_device {
            Some(self.colours.char_device)
        } else if self.file.is_socket {
            Some(self.colours.socket)
        } else if !self.file.is_file {
            Some(self.colours.special)
        } else {
            None
        }
    }

    /// The colour painting the filename part of the output, from the
    /// deterministic precedence chain: broken-link colour in name-only
    /// views, else kind, else extension map, else normal.
    pub fn style(&self) -> (r: ansi_term::Style)
        ensures
            r == style_model(
                self.file@,
                target_model(self.target),
                self.link_style,
                *self.colours,
                self.exts,
            ),
    {
        if self.link_style == LinkStyle::JustFilenames {
            match &self.target {
                Some(LinkTarget::Broken(_)) => {
                    return self.colours.broken_symlink;
                },
                _ => {},
            }
        }
        match self.kind_style() {
            Some(s) => s,
            None => match self.exts.colour_file(self.file) {
                Some(s) => s,
                None => self.colours.normal,
            },
        }
    }

    /// The character displayed after the name when classifying is on,
    /// if the entry's kind has one.
    pub fn classify_char(&self) -> (r: Option<&'static str>)
        ensures
            match (r, classify_model(self.file@)) {
                (Some(s), Some(m)) => s@ == m,
                (None, None) => true,
                _ => false,
            },
    {
        if self.file.is_executable_file {
            Some("*")
        } else if self.file.is_directory {
            Some("/")
        } else if self.file.is_pipe {
            Some("|")
        } else if self.file.is_link {
            Some("@")
        } else if self.file.is_socket {
            Some("=")
        } else {
            None
        }
    }

    /// Appends the fragments of a parent-path prefix: the escaped
    /// parent and a closing `/`, or only `/` when the parent is the
    /// root, or nothing when it is empty.
    fn add_parent_bits(&self, bits: &mut Vec<StyledFragment>, parent: &str)
        ensures
            frag_views(final(bits)@) == frag_views(old(bits)@) + parent_bits_model(
                parent@,
                *self.colours,
            ),
    {
        let n = parent.unicode_len();
        if n == 0 {
            assert(frag_views(bits@) =~= frag_views(bits@) + parent_bits_model(
                parent@,
                *self.colours,
            ));
        } else if n == 1 && parent.get_char(0) == '/' {
            proof {
                assert(parent@ =~= seq!['/']);
            }
            let slash = StyledFragment { text: "/".to_owned(), style: self.colours.symlink_path };
            proof {
                lemma_frag_views_push(bits@, slash);
            }
            bits.push(slash);
            assert(frag_views(bits@) =~= frag_views(old(bits)@) + parent_bits_model(
                parent@,
                *self.colours,
            ));
        } else {
            proof {
                if parent@ == seq!['/'] {
                    assert(parent@.len() == 1);
                    assert(parent@[0] == '/');
                }
            }
            escape(parent, self.colours.symlink_path, self.colours.control_char, bits);
            let slash = StyledFragment { text: "/".to_owned(), style: self.colours.symlink_path };
            proof {
                lemma_frag_views_push(bits@, slash);
            }
            bits.push(slash);
            assert(frag_views(bits@) =~= frag_views(old(bits)@) + parent_bits_model(
                parent@,
                *self.colours,
            ));
        }
    }

    /// The fragments of the icon glyph joined to this entry's name,
    /// escaped, as one span in the entry's resolved style.
    fn coloured_file_name(&self) -> (r: Vec<StyledFragment>)
        ensures
            frag_views(r@) == name_frags_model(
                self.file@,
                style_model(
                    self.file@,
                    target_model(self.target),
                    self.link_style,
                    *self.colours,
                    self.exts,
                ),
                *self.colours,
            ),
    {
        let file_style = self.style();
        let mut bits: Vec<StyledFragment> = Vec::new();
        let icon = icon_for(self.file.name.as_str(), self.file.is_directory);
        let text = icon.to_owned().concat(self.file.name.as_str());
        assert(frag_views(bits@) =~= Seq::<FragmentModel>::empty());
        escape(text.as_str(), file_style, self.colours.control_char, &mut bits);
        assert(frag_views(bits@) =~= escape_model(
            icon_model(self.file@.name, self.file@.is_directory) + self.file@.name,
            file_style,
            self.colours.control_char,
        ));
        bits
    }

    /// Paints the name of the file, resulting in the ordered fragments
    /// that represent it on screen.
    #[verifier::rlimit(100)]
    pub fn paint(&self) -> (r: Vec<StyledFragment>)
        ensures
            frag_views(r@) == paint_model(
                self.file@,
                target_model(self.target),
                self.link_style,
                self.classify,
                *self.colours,
                self.exts,
            ),
    {
        let ghost f = self.file@;
        let ghost colours = *self.colours;
        let mut bits: Vec<StyledFragment> = Vec::new();
        assert(frag_views(bits@) =~= Seq::<FragmentModel>::empty());

        if !self.file.has_parent_dir {
            match parent_of_path(self.file.path.as_str()) {
                Some(parent) => {
                    self.add_parent_bits(&mut bits, parent.as_str());
                },
                None => {},
            }
        }
        assert(frag_views(bits@) =~= head_model(f, colours));

        if !self.file.name.as_str().is_empty() {
            let mut name_bits = self.coloured_file_name();
            proof {
                lemma_frag_views_add(bits@, name_bits@);
            }
            bits.append(&mut name_bits);
        }
        assert(frag_views(bits@) =~= head_model(f, colours) + name_part_model(
            f,
            target_model(self.target),
            self.link_style,
            colours,
            self.exts,
        ));
        let ghost pre_tail = frag_views(bits@);

        match (self.link_style, &self.target) {
            (LinkStyle::FullLinkPaths, Some(target)) => {
                match target {
                    LinkTarget::Resolved(tgt) => {
                        let sp1 = StyledFragment {
                            text: " ".to_owned(),
                            style: self.colours.plain,
                        };
                        proof {
                            lemma_frag_views_push(bits@, sp1);
                        }
                        bits.push(sp1);
                        let arrow = StyledFragment {
                            text: "->".to_owned(),
                            style: self.colours.normal_arrow,
                        };
                        proof {
                            lemma_frag_views_push(bits@, arrow);
                        }
                        bits.push(arrow);
                        let sp2 = StyledFragment {
                            text: " ".to_owned(),
                            style: self.colours.plain,
                        };
                        proof {
                            lemma_frag_views_push(bits@, sp2);
                        }
                        bits.push(sp2);

                        match parent_of_path(tgt.path.as_str()) {
                            Some(parent) => {
                                self.add_parent_bits(&mut bits, parent.as_str());
                            },
                            None => {},
                        }

                        if !tgt.name.as_str().is_empty() {
                            let target_name = FileName {
                                file: tgt,
                                colours: self.colours,
                                target: None,
                                link_style: LinkStyle::FullLinkPaths,
                                classify: Classify::JustFilenames,
                                exts: self.exts,
                            };
                            let mut name_bits = target_name.coloured_file_name();
                            proof {
                                lemma_frag_views_add(bits@, name_bits@);
                            }
                            bits.append(&mut name_bits);
                        }
                        assert(frag_views(bits@) =~= pre_tail + link_tail_model(
                            target@,
                            colours,
                            self.exts,
                        ));
                    },
                    LinkTarget::Broken(broken_path) => {
                        let sp1 = StyledFragment {
                            text: " ".to_owned(),
                            style: self.colours.plain,
                        };
                        proof {
                            lemma_frag_views_push(bits@, sp1);
                        }
                        bits.push(sp1);
                        let arrow = StyledFragment {
                            text: "->".to_owned(),
                            style: self.colours.broken_symlink,
                        };
                        proof {
                            lemma_frag_views_push(bits@, arrow);
                        }
                        bits.push(arrow);
                        let sp2 = StyledFragment {
                            text: " ".to_owned(),
                            style: self.colours.plain,
                        };
                        proof {
                            lemma_frag_views_push(bits@, sp2);
                        }
                        bits.push(sp2);
                        escape(
                            broken_path.as_str(),
                            self.colours.broken_filename,
                            self.colours.broken_control_char,
                            &mut bits,
                        );
                        assert(frag_views(bits@) =~= pre_tail + link_tail_model(
                            target@,
                            colours,
                            self.exts,
                        ));
                    },
                    LinkTarget::Failed => {
                        assert(frag_views(bits@) =~= pre_tail + link_tail_model(
                            target@,
                            colours,
                            self.exts,
                        ));
                    },
                }
            },
            _ => {
                if self.classify == Classify::AddFileIndicators {
                    match self.classify_char() {
                        Some(class) => {
                            let frag = StyledFragment {
                                text: class.to_owned(),
                                style: self.colours.plain,
                            };
                            proof {
                                lemma_frag_views_push(bits@, frag);
                            }
                            bits.push(frag);
                        },
                        None => {},
                    }
                }
                assert(frag_views(bits@) =~= pre_tail + classify_tail_model(
                    f,
                    self.classify,
                    colours,
                ));
            },
        }
        assert(frag_views(bits@) =~= paint_model(
            f,
            target_model(self.target),
            self.link_style,
            self.classify,
            colours,
            self.exts,
        ));
        bits
    }
}

/// Exactly one display attribute governs the icon-and-name span of a
/// render: every fragment of the name part carries the entry's single
/// resolved style, except control characters, which carry the
/// control-character slot. The icon is never coloured independently of
/// the name.
pub proof fn lemma_one_style_spans_icon_and_name<E: FileColours>(
    f: EntryModel,
    target: Option<LinkTargetModel>,
    link_style: LinkStyle,
    colours: Colours,
    exts: &E,
)
    ensures
        forall|i: int|
            0 <= i < name_part_model(f, target, link_style, colours, exts).len()
                ==> #[trigger] name_part_model(f, target, link_style, colours, exts)[i].style
                    == style_model(f, target, link_style, colours, exts)
                || name_part_model(f, target, link_style, colours, exts)[i].style
                    == colours.control_char,
{
    if f.name.len() > 0 {
        crate::fragment::lemma_escape_styles(
            icon_model(f.name, f.is_directory) + f.name,
            style_model(f, target, link_style, colours, exts),
            colours.control_char,
        );
    }
}

/// Resolving a style is pure and deterministic: on equal inputs it
/// yields the identical display attribute, however often it is asked.
pub proof fn lemma_style_deterministic<E: FileColours>(
    f1: EntryModel,
    f2: EntryModel,
    t1: Option<LinkTargetModel>,
    t2: Option<LinkTargetModel>,
    ls1: LinkStyle,
    ls2: LinkStyle,
    c1: Colours,
    c2: Colours,
    e1: &E,
    e2: &E,
)
    requires
        f1 == f2,
        t1 == t2,
        ls1 == ls2,
        c1 == c2,
        e1 == e2,
    ensures
        style_model(f1, t1, ls1, c1, e1) == style_model(f2, t2, ls2, c2, e2),
{
}

/// Structural kind beats the extension map: a directory resolves to the
/// directory colour whatever the extension map would assign. The one
/// exception is an entry that is at once a directory and a broken link
/// in a name-only view, where the broken-link colour wins.
pub proof fn lemma_directory_beats_extension<E: FileColours>(
    f: EntryModel,
    target: Option<LinkTargetModel>,
    link_style: LinkStyle,
    colours: Colours,
    exts: &E,
)
    requires
        f.is_directory,
        !(link_style == LinkStyle::JustFilenames && (target matches Some(
            LinkTargetModel::Broken(_),
        ))),
    ensures
        style_model(f, target, link_style, colours, exts) == colours.directory,
{
}

/// When targets are shown and one is known, the render is the prefix,
/// the name span and the link-target display: no classification suffix
/// appears.
pub proof fn lemma_link_display_excludes_classify<E: FileColours>(
    f: EntryModel,
    t: LinkTargetModel,
    classify: Classify,
    colours: Colours,
    exts: &E,
)
    ensures
        paint_model(f, Some(t), LinkStyle::FullLinkPaths, classify, colours, exts) == head_model(
            f,
            colours,
        ) + name_part_model(f, Some(t), LinkStyle::FullLinkPaths, colours, exts) + link_tail_model(
            t,
            colours,
            exts,
        ),
{
}

/// When targets are hidden or none is known, the render is the prefix,
/// the name span and the classification suffix: no link fragments
/// appear.
pub proof fn lemma_classify_excludes_link_display<E: FileColours>(
    f: EntryModel,
    target: Option<LinkTargetModel>,
    link_style: LinkStyle,
    classify: Classify,
    colours: Colours,
    exts: &E,
)
    requires
        !(link_style == LinkStyle::FullLinkPaths && target is Some),
    ensures
        paint_model(f, target, link_style, classify, colours, exts) == head_model(f, colours)
            + name_part_model(f, target, link_style, colours, exts) + classify_tail_model(
            f,
            classify,
            colours,
        ),
{
}

} // verus!
