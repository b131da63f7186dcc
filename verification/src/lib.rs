//! Rendering of a single directory entry's displayable name.
//!
//! Given an entry's metadata, its resolved link target, and a colour
//! scheme, the library decides which styled text fragments represent the
//! entry: an optional parent-path prefix, an icon glyph joined to the
//! name, an optional link-target display, and an optional classification
//! suffix. All decision logic is verified; the terminal compositor that
//! lays the fragments out is a collaborator outside this crate.

pub mod entry;
pub mod file_name;
pub mod fragment;
pub mod icons;
pub mod paths;
pub mod style;
pub mod text;

pub use entry::{Entry, LinkTarget};
pub use file_name::{Classify, FileName, FileStyle, LinkStyle};
pub use fragment::StyledFragment;
pub use icons::icon_for;
pub use style::{Colours, ExtensionColours, FileColours, NoFileColours};
