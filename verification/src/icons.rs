//! The icon classification table: an ordered list of extension-group
//! rules, evaluated first match wins. The grouping and the order are
//! part of the observable behaviour -- a key that occurs in two rules
//! (as `tex` does) always takes the earlier rule -- so the table is one
//! explicit chain, never re-sorted or deduplicated. Keys match
//! case-sensitively: `RData` matches only in that mixed case.

use vstd::prelude::*;

use crate::text::{eq_str, ext_of, extension_of};

verus! {

/// The glyph a directory gets, whatever its name.
pub open spec fn directory_icon() -> Seq<char> {
    "\u{f115}  "@
}

/// The glyph for an extension key, by the first rule whose group holds
/// the key; the catch-all glyph when none does.
pub open spec fn icon_for_ext(ext: Seq<char>) -> Seq<char> {
    if ext == "zip"@ || ext == "tar"@ || ext == "gz"@ || ext == "rar"@ {
        "\u{f410}  "@
    } else if ext == "yml"@ || ext == "yaml"@ {
        "\u{f481}  "@
    } else if ext == "xml"@ || ext == "xul"@ {
        "\u{e619}  "@
    } else if ext == "xls"@ || ext == "xlsx"@ || ext == "csv"@ || ext == "gsheet"@ {
        "\u{f17a}  "@
    } else if ext == "ini"@ || ext == "exe"@ || ext == "bat"@ {
        "\u{f481}  "@
    } else if ext == "webm"@ || ext == "ogv"@ || ext == "mp4"@ || ext == "mkv"@ || ext == "avi"@ {
        "\u{f03d}  "@
    } else if ext == "styl"@ || ext == "stylus"@ || ext == "tex"@ {
        "\u{e600}  "@
    } else if ext == "zshrc"@ || ext == "zsh-theme"@ || ext == "zsh"@ || ext == "sh"@ || ext == "fish"@ || ext == "bashrc"@ || ext == "bash_profile"@ || ext == "bash_history"@ || ext == "bash"@ {
        "\u{f489}  "@
    } else if ext == "rb"@ || ext == "ru"@ || ext == "rspec"@ || ext == "rspec_status"@ || ext == "rspec_parallel"@ || ext == "Rakefile"@ || ext == "Procfile"@ || ext == "lock"@ || ext == "gemspec"@ || ext == "Gemfile"@ || ext == "Guardfile"@ {
        "\u{e21e}  "@
    } else if ext == "bmp"@ || ext == "gif"@ || ext == "ico"@ || ext == "png"@ || ext == "jpg"@ || ext == "jpeg"@ || ext == "svg"@ {
        "\u{f1c5}  "@
    } else if ext == "eot"@ || ext == "otf"@ || ext == "ttf"@ || ext == "woff"@ || ext == "woff2"@ {
        "\u{f031}  "@
    } else if ext == "md"@ || ext == "txt"@ || ext == "rst"@ || ext == "rdoc"@ {
        "\u{f48a}  "@
    } else if ext == "erb"@ || ext == "slim"@ {
        "\u{e73b}  "@
    } else if ext == "RData"@ || ext == "rds"@ || ext == "r"@ {
        "\u{f25d}  "@
    } else if ext == "py"@ || ext == "pyc"@ {
        "\u{e606}  "@
    } else if ext == "ppt"@ || ext == "pptx"@ || ext == "gslides"@ {
        "\u{f1c4}  "@
    } else if ext == "git"@ || ext == "gitignore"@ || ext == "gitconfig"@ || ext == "gitignore_global"@ {
        "\u{f1d3}  "@
    } else if ext == "apk"@ || ext == "gradle"@ {
        "\u{e70e}  "@
    } else if ext == "ds_store"@ || ext == "localized"@ {
        "\u{f179}  "@
    } else if ext == "mp3"@ || ext == "ogg"@ {
        "\u{f001}  "@
    } else if ext == "doc"@ || ext == "docx"@ || ext == "gdoc"@ {
        "\u{f1c2}  "@
    } else if ext == "tsx"@ || ext == "jsx"@ {
        "\u{e7ba}  "@
    } else if ext == "properties"@ || ext == "json"@ {
        "\u{e60b}  "@
    } else if ext == "jar"@ || ext == "java"@ {
        "\u{e204}  "@
    } else if ext == "lhs"@ || ext == "hs"@ {
        "\u{e777}  "@
    } else if ext == "mobi"@ || ext == "ebook"@ || ext == "epub"@ {
        "\u{e28b}  "@
    } else if ext == "scss"@ || ext == "css"@ {
        "\u{e749}  "@
    } else if ext == "editorconfig"@ || ext == "conf"@ {
        "\u{e615}  "@
    } else if ext == "vim"@ {
        "\u{e62b}  "@
    } else if ext == "twig"@ {
        "\u{e61c}  "@
    } else if ext == "ts"@ {
        "\u{e628}  "@
    } else if ext == "tex"@ {
        "\u{e600}  "@
    } else if ext == "sqlite3"@ {
        "\u{e7c4}  "@
    } else if ext == "scala"@ {
        "\u{e737}  "@
    } else if ext == "sass"@ {
        "\u{e603}  "@
    } else if ext == "rss"@ {
        "\u{f09e}  "@
    } else if ext == "rdb"@ {
        "\u{e76d}  "@
    } else if ext == "psd"@ {
        "\u{e7b8}  "@
    } else if ext == "pl"@ {
        "\u{e769}  "@
    } else if ext == "php"@ {
        "\u{e73d}  "@
    } else if ext == "pdf"@ {
        "\u{f1c1}  "@
    } else if ext == "npmignore"@ {
        "\u{e71e}  "@
    } else if ext == "mustache"@ {
        "\u{e60f}  "@
    } else if ext == "lua"@ {
        "\u{e620}  "@
    } else if ext == "log"@ {
        "\u{f18d}  "@
    } else if ext == "less"@ {
        "\u{e758}  "@
    } else if ext == "js"@ {
        "\u{e74e}  "@
    } else if ext == "iml"@ {
        "\u{e7b5}  "@
    } else if ext == "html"@ {
        "\u{f13b}  "@
    } else if ext == "go"@ {
        "\u{e626}  "@
    } else if ext == "gform"@ {
        "\u{f298}  "@
    } else if ext == "erl"@ {
        "\u{e7b1}  "@
    } else if ext == "ai"@ {
        "\u{e7b4}  "@
    } else if ext == "avro"@ {
        "\u{e60b}  "@
    } else if ext == "c"@ {
        "\u{e61e}  "@
    } else if ext == "clj"@ {
        "\u{e768}  "@
    } else if ext == "coffee"@ {
        "\u{f0f4}  "@
    } else if ext == "cpp"@ {
        "\u{e61d}  "@
    } else if ext == "d"@ {
        "\u{e7af}  "@
    } else if ext == "dart"@ {
        "\u{e798}  "@
    } else if ext == "db"@ {
        "\u{f1c0}  "@
    } else if ext == "diff"@ {
        "\u{f440}  "@
    } else if ext == "env"@ || ext == "config"@ {
        "\u{f462}  "@
    } else {
        "\u{f15b}  "@
    }
}

/// The glyph shown before a name: the directory glyph for a directory,
/// else the glyph of the name's extension key.
pub open spec fn icon_model(name: Seq<char>, is_directory: bool) -> Seq<char> {
    if is_directory {
        directory_icon()
    } else {
        icon_for_ext(ext_of(name))
    }
}

/// The glyph for one extension key.
fn icon_of_ext(ext: &str) -> (r: &'static str)
    ensures
        r@ == icon_for_ext(ext@),
{
    if eq_str(ext, "zip") || eq_str(ext, "tar") || eq_str(ext, "gz") || eq_str(ext, "rar") {
        "\u{f410}  "
    } else if eq_str(ext, "yml") || eq_str(ext, "yaml") {
        "\u{f481}  "
    } else if eq_str(ext, "xml") || eq_str(ext, "xul") {
        "\u{e619}  "
    } else if eq_str(ext, "xls") || eq_str(ext, "xlsx") || eq_str(ext, "csv") || eq_str(ext, "gsheet") {
        "\u{f17a}  "
    } else if eq_str(ext, "ini") || eq_str(ext, "exe") || eq_str(ext, "bat") {
        "\u{f481}  "
    } else if eq_str(ext, "webm") || eq_str(ext, "ogv") || eq_str(ext, "mp4") || eq_str(ext, "mkv") || eq_str(ext, "avi") {
        "\u{f03d}  "
    } else if eq_str(ext, "styl") || eq_str(ext, "stylus") || eq_str(ext, "tex") {
        "\u{e600}  "
    } else if eq_str(ext, "zshrc") || eq_str(ext, "zsh-theme") || eq_str(ext, "zsh") || eq_str(ext, "sh") || eq_str(ext, "fish") || eq_str(ext, "bashrc") || eq_str(ext, "bash_profile") || eq_str(ext, "bash_history") || eq_str(ext, "bash") {
        "\u{f489}  "
    } else if eq_str(ext, "rb") || eq_str(ext, "ru") || eq_str(ext, "rspec") || eq_str(ext, "rspec_status") || eq_str(ext, "rspec_parallel") || eq_str(ext, "Rakefile") || eq_str(ext, "Procfile") || eq_str(ext, "lock") || eq_str(ext, "gemspec") || eq_str(ext, "Gemfile") || eq_str(ext, "Guardfile") {
        "\u{e21e}  "
    } else if eq_str(ext, "bmp") || eq_str(ext, "gif") || eq_str(ext, "ico") || eq_str(ext, "png") || eq_str(ext, "jpg") || eq_str(ext, "jpeg") || eq_str(ext, "svg") {
        "\u{f1c5}  "
    } else if eq_str(ext, "eot") || eq_str(ext, "otf") || eq_str(ext, "ttf") || eq_str(ext, "woff") || eq_str(ext, "woff2") {
        "\u{f031}  "
    } else if eq_str(ext, "md") || eq_str(ext, "txt") || eq_str(ext, "rst") || eq_str(ext, "rdoc") {
        "\u{f48a}  "
    } else if eq_str(ext, "erb") || eq_str(ext, "slim") {
        "\u{e73b}  "
    } else if eq_str(ext, "RData") || eq_str(ext, "rds") || eq_str(ext, "r") {
        "\u{f25d}  "
    } else if eq_str(ext, "py") || eq_str(ext, "pyc") {
        "\u{e606}  "
    } else if eq_str(ext, "ppt") || eq_str(ext, "pptx") || eq_str(ext, "gslides") {
        "\u{f1c4}  "
    } else if eq_str(ext, "git") || eq_str(ext, "gitignore") || eq_str(ext, "gitconfig") || eq_str(ext, "gitignore_global") {
        "\u{f1d3}  "
    } else if eq_str(ext, "apk") || eq_str(ext, "gradle") {
        "\u{e70e}  "
    } else if eq_str(ext, "ds_store") || eq_str(ext, "localized") {
        "\u{f179}  "
    } else if eq_str(ext, "mp3") || eq_str(ext, "ogg") {
        "\u{f001}  "
    } else if eq_str(ext, "doc") || eq_str(ext, "docx") || eq_str(ext, "gdoc") {
        "\u{f1c2}  "
    } else if eq_str(ext, "tsx") || eq_str(ext, "jsx") {
        "\u{e7ba}  "
    } else if eq_str(ext, "properties") || eq_str(ext, "json") {
        "\u{e60b}  "
    } else if eq_str(ext, "jar") || eq_str(ext, "java") {
        "\u{e204}  "
    } else if eq_str(ext, "lhs") || eq_str(ext, "hs") {
        "\u{e777}  "
    } else if eq_str(ext, "mobi") || eq_str(ext, "ebook") || eq_str(ext, "epub") {
        "\u{e28b}  "
    } else if eq_str(ext, "scss") || eq_str(ext, "css") {
        "\u{e749}  "
    } else if eq_str(ext, "editorconfig") || eq_str(ext, "conf") {
        "\u{e615}  "
    } else if eq_str(ext, "vim") {
        "\u{e62b}  "
    } else if eq_str(ext, "twig") {
        "\u{e61c}  "
    } else if eq_str(ext, "ts") {
        "\u{e628}  "
    } else if eq_str(ext, "tex") {
        "\u{e600}  "
    } else if eq_str(ext, "sqlite3") {
        "\u{e7c4}  "
    } else if eq_str(ext, "scala") {
        "\u{e737}  "
    } else if eq_str(ext, "sass") {
        "\u{e603}  "
    } else if eq_str(ext, "rss") {
        "\u{f09e}  "
    } else if eq_str(ext, "rdb") {
        "\u{e76d}  "
    } else if eq_str(ext, "psd") {
        "\u{e7b8}  "
    } else if eq_str(ext, "pl") {
        "\u{e769}  "
    } else if eq_str(ext, "php") {
        "\u{e73d}  "
    } else if eq_str(ext, "pdf") {
        "\u{f1c1}  "
    } else if eq_str(ext, "npmignore") {
        "\u{e71e}  "
    } else if eq_str(ext, "mustache") {
        "\u{e60f}  "
    } else if eq_str(ext, "lua") {
        "\u{e620}  "
    } else if eq_str(ext, "log") {
        "\u{f18d}  "
    } else if eq_str(ext, "less") {
        "\u{e758}  "
    } else if eq_str(ext, "js") {
        "\u{e74e}  "
    } else if eq_str(ext, "iml") {
        "\u{e7b5}  "
    } else if eq_str(ext, "html") {
        "\u{f13b}  "
    } else if eq_str(ext, "go") {
        "\u{e626}  "
    } else if eq_str(ext, "gform") {
        "\u{f298}  "
    } else if eq_str(ext, "erl") {
        "\u{e7b1}  "
    } else if eq_str(ext, "ai") {
        "\u{e7b4}  "
    } else if eq_str(ext, "avro") {
        "\u{e60b}  "
    } else if eq_str(ext, "c") {
        "\u{e61e}  "
    } else if eq_str(ext, "clj") {
        "\u{e768}  "
    } else if eq_str(ext, "coffee") {
        "\u{f0f4}  "
    } else if eq_str(ext, "cpp") {
        "\u{e61d}  "
    } else if eq_str(ext, "d") {
        "\u{e7af}  "
    } else if eq_str(ext, "dart") {
        "\u{e798}  "
    } else if eq_str(ext, "db") {
        "\u{f1c0}  "
    } else if eq_str(ext, "diff") {
        "\u{f440}  "
    } else if eq_str(ext, "env") || eq_str(ext, "config") {
        "\u{f462}  "
    } else {
        "\u{f15b}  "
    }
}

/// The icon glyph preceding a name. A directory always gets the
/// directory glyph; any other entry is classified by its extension key,
/// case-sensitively, through the ordered rule table.
pub fn icon_for(name: &str, is_directory: bool) -> (r: &'static str)
    ensures
        r@ == icon_model(name@, is_directory),
{
    if is_directory {
        return "\u{f115}  ";
    }
    let ext = extension_of(name);
    icon_of_ext(ext.as_str())
}

} // verus!
