//! Display attributes and the colour scheme consulted while rendering.

use vstd::prelude::*;

use crate::entry::{Entry, EntryModel};
use crate::text::{eq_str, ext_of, extension_of};

verus! {

/// Declares `ansi_term::Style`, the opaque display attribute that every
/// fragment carries. The library never looks inside a style; it only
/// selects one slot of the colour scheme and attaches it to text.
#[verifier::external_type_specification]
#[verifier::external_body]
pub struct ExStyle(ansi_term::Style);

/// The set of styles needed to paint a file name: one slot per semantic
/// role. Supplied by the caller (a theme) and read-only while rendering.
pub struct Colours {
    /// A regular file with no more specific role.
    pub normal: ansi_term::Style,
    /// A directory.
    pub directory: ansi_term::Style,
    /// A symbolic link's own name.
    pub symlink: ansi_term::Style,
    /// A named pipe.
    pub pipe: ansi_term::Style,
    /// A block device.
    pub block_device: ansi_term::Style,
    /// A character device.
    pub char_device: ansi_term::Style,
    /// A socket.
    pub socket: ansi_term::Style,
    /// Any remaining non-regular file kind.
    pub special: ansi_term::Style,
    /// The path of a link's target, up to but not including its name.
    pub symlink_path: ansi_term::Style,
    /// The arrow between a link and a target that resolved.
    pub normal_arrow: ansi_term::Style,
    /// The name of a broken link in views that hide targets, and the
    /// arrow before a broken target in views that show them.
    pub broken_symlink: ansi_term::Style,
    /// The whole path of a broken link's target.
    pub broken_filename: ansi_term::Style,
    /// A non-printable character inside a name.
    pub control_char: ansi_term::Style,
    /// A non-printable character inside a broken link's target.
    pub broken_control_char: ansi_term::Style,
    /// A file with its executable bit set.
    pub executable_file: ansi_term::Style,
    /// Unstyled text: the padding around arrows and the classification
    /// suffix character.
    pub plain: ansi_term::Style,
}

/// A source of colours for entries whose structural kind gives them
/// none: typically a mapping keyed on the file's extension. Sources
/// compose into chains where the first answer wins.
pub trait FileColours {
    /// The colour this source assigns to an entry, if any.
    spec fn colour_spec(&self, file: EntryModel) -> Option<ansi_term::Style>;

    /// Look the entry up.
    fn colour_file(&self, file: &Entry) -> (r: Option<ansi_term::Style>)
        ensures
            r == self.colour_spec(file@),
    ;
}

/// A lookup source that never assigns a colour.
pub struct NoFileColours;

impl FileColours for NoFileColours {
    open spec fn colour_spec(&self, file: EntryModel) -> Option<ansi_term::Style> {
        None
    }

    fn colour_file(&self, file: &Entry) -> (r: Option<ansi_term::Style>) {
        None
    }
}

/// The first style paired with `ext`, in order; none when no pair
/// matches.
pub open spec fn lookup_ext(
    mappings: Seq<(String, ansi_term::Style)>,
    ext: Seq<char>,
) -> Option<ansi_term::Style>
    decreases mappings.len(),
{
    if mappings.len() == 0 {
        None
    } else if mappings[0].0@ == ext {
        Some(mappings[0].1)
    } else {
        lookup_ext(mappings.drop_first(), ext)
    }
}

/// A lookup source keyed on the extension of the entry's name: an
/// ordered list of (extension, style) pairs, first match wins.
pub struct ExtensionColours {
    /// The pairs, tried in order.
    pub mappings: Vec<(String, ansi_term::Style)>,
}

impl FileColours for ExtensionColours {
    open spec fn colour_spec(&self, file: EntryModel) -> Option<ansi_term::Style> {
        lookup_ext(self.mappings@, ext_of(file.name))
    }

    fn colour_file(&self, file: &Entry) -> (r: Option<ansi_term::Style>) {
        let ext = extension_of(file.name.as_str());
        proof {
            assert(self.mappings@.skip(0) =~= self.mappings@);
        }
        let mut i: usize = 0;
        while i < self.mappings.len()
            invariant
                i <= self.mappings@.len(),
                ext@ == ext_of(file@.name),
                lookup_ext(self.mappings@.skip(i as int), ext@) == lookup_ext(
                    self.mappings@,
                    ext@,
                ),
            decreases self.mappings@.len() - i,
        {
            proof {
                assert(self.mappings@.skip(i as int)[0] == self.mappings@[i as int]);
                assert(self.mappings@.skip(i as int).drop_first() =~= self.mappings@.skip(
                    i as int + 1,
                ));
            }
            if eq_str(self.mappings[i].0.as_str(), ext.as_str()) {
                return Some(self.mappings[i].1);
            }
            i += 1;
        }
        proof {
            assert(self.mappings@.skip(i as int) =~= Seq::<(String, ansi_term::Style)>::empty());
        }
        None
    }
}

/// A pair of lookup sources tried in order: the first answer wins, and
/// the second source is consulted only when the first has none. Pairs
/// nest, so any chain of sources can be built from them.
impl<A: FileColours, B: FileColours> FileColours for (A, B) {
    open spec fn colour_spec(&self, file: EntryModel) -> Option<ansi_term::Style> {
        if self.0.colour_spec(file) is Some {
            self.0.colour_spec(file)
        } else {
            self.1.colour_spec(file)
        }
    }

    fn colour_file(&self, file: &Entry) -> (r: Option<ansi_term::Style>) {
        match self.0.colour_file(file) {
            Some(s) => Some(s),
            None => self.1.colour_file(file),
        }
    }
}

/// A pair of sources answers with the first source's colour whenever the
/// first source has one, whatever the second would say; and with the
/// second source's answer whenever the first has none.
pub proof fn lemma_pair_first_wins<A: FileColours, B: FileColours>(
    a: A,
    b: B,
    file: EntryModel,
)
    ensures
        a.colour_spec(file) is Some ==> (a, b).colour_spec(file) == a.colour_spec(file),
        a.colour_spec(file) is None ==> (a, b).colour_spec(file) == b.colour_spec(file),
{
}

/// Pair composition is associative: a chain of sources answers the same
/// however its pairs are nested, so chains of any length are sound.
pub proof fn lemma_pair_associative<A: FileColours, B: FileColours, C: FileColours>(
    a: A,
    b: B,
    c: C,
    file: EntryModel,
)
    ensures
        ((a, b), c).colour_spec(file) == (a, (b, c)).colour_spec(file),
{
}

} // verus!
