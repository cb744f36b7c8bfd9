//! The icon shown beside a search result, by kind of file. Each window of
//! the launcher has its own table; extensions compare exactly (case matters).

use crate::search::SearchResult;
use crate::text::str_eq;
use vstd::prelude::*;

verus! {

pub open spec fn views(names: Seq<&str>) -> Seq<Seq<char>> {
    names.map_values(|s: &str| s@)
}

/// Whether `ext` is one of `names`.
fn one_of(ext: &str, names: &[&str]) -> (r: bool)
    ensures
        r == views(names@).contains(ext@),
{
    let ghost v = views(names@);
    let mut i: usize = 0;
    while i < names.len()
        invariant
            i <= names.len(),
            v == views(names@),
            forall|j: int| 0 <= j < i ==> v[j] != ext@,
        decreases names.len() - i,
    {
        if str_eq(names[i], ext) {
            assert(v[i as int] == ext@);
            return true;
        }
        i = i + 1;
    }
    false
}

/// The extension matches a group of the table.
pub open spec fn in_group(ext: Option<Seq<char>>, group: Seq<Seq<char>>) -> bool {
    match ext {
        Some(e) => group.contains(e),
        None => false,
    }
}

/// Icons of the first search window.
pub open spec fn panel_icon_for(is_directory: bool, ext: Option<Seq<char>>) -> Seq<char> {
    if is_directory { "📁"@ }
    else if in_group(ext, seq!["exe"@]) { "⚙️"@ }
    else if in_group(ext, seq!["txt"@]) { "📄"@ }
    else if in_group(ext, seq!["pdf"@]) { "📕"@ }
    else if in_group(ext, seq!["jpg"@, "png"@, "gif"@]) { "🖼️"@ }
    else if in_group(ext, seq!["mp3"@, "wav"@]) { "🎵"@ }
    else if in_group(ext, seq!["mp4"@, "avi"@]) { "🎬"@ }
    else if in_group(ext, seq!["zip"@, "rar"@]) { "📦"@ }
    else { "📄"@ }
}

/// Icons of the command-palette window.
pub open spec fn palette_icon_for(is_directory: bool, ext: Option<Seq<char>>) -> Seq<char> {
    if is_directory { "📁"@ }
    else if in_group(ext, seq!["exe"@, "msi"@]) { "⚙️"@ }
    else if in_group(ext, seq!["txt"@, "md"@]) { "📄"@ }
    else if in_group(ext, seq!["pdf"@]) { "📕"@ }
    else if in_group(ext, seq!["docx"@, "doc"@]) { "📘"@ }
    else if in_group(ext, seq!["xlsx"@, "xls"@]) { "📗"@ }
    else if in_group(ext, seq!["pptx"@, "ppt"@]) { "📙"@ }
    else if in_group(ext, seq!["jpg"@, "jpeg"@, "png"@, "gif"@, "bmp"@]) { "🖼️"@ }
    else if in_group(ext, seq!["mp3"@, "wav"@, "flac"@, "m4a"@]) { "🎵"@ }
    else if in_group(ext, seq!["mp4"@, "avi"@, "mkv"@, "mov"@]) { "🎬"@ }
    else if in_group(ext, seq!["zip"@, "rar"@, "7z"@, "tar"@, "gz"@]) { "📦"@ }
    else if in_group(ext, seq!["rs"@, "py"@, "js"@, "ts"@, "java"@]) { "💻"@ }
    else if in_group(ext, seq!["html"@, "css"@, "json"@, "xml"@]) { "🌐"@ }
    else { "📄"@ }
}

/// Icons of the launcher window.
pub open spec fn launcher_icon_for(is_directory: bool, ext: Option<Seq<char>>) -> Seq<char> {
    if is_directory { "📁"@ }
    else if in_group(ext, seq!["exe"@, "msi"@]) { "⚙️"@ }
    else if in_group(ext, seq!["pdf"@]) { "📕"@ }
    else if in_group(ext, seq!["docx"@, "doc"@]) { "📘"@ }
    else if in_group(ext, seq!["xlsx"@, "xls"@]) { "📗"@ }
    else if in_group(ext, seq!["pptx"@, "ppt"@]) { "📙"@ }
    else if in_group(ext, seq!["txt"@, "md"@]) { "📝"@ }
    else if in_group(ext, seq!["jpg"@, "jpeg"@, "png"@, "gif"@, "bmp"@, "svg"@, "ico"@]) { "🖼️"@ }
    else if in_group(ext, seq!["mp3"@, "wav"@, "flac"@, "m4a"@, "aac"@, "ogg"@]) { "🎵"@ }
    else if in_group(ext, seq!["mp4"@, "avi"@, "mkv"@, "mov"@, "wmv"@, "flv"@]) { "🎬"@ }
    else if in_group(ext, seq!["zip"@, "rar"@, "7z"@, "tar"@, "gz"@, "bz2"@]) { "📦"@ }
    else if in_group(ext, seq!["rs"@]) { "🦀"@ }
    else if in_group(ext, seq!["py"@]) { "🐍"@ }
    else if in_group(ext, seq!["js"@, "ts"@, "jsx"@, "tsx"@]) { "📜"@ }
    else if in_group(ext, seq!["java"@, "class"@, "jar"@]) { "☕"@ }
    else if in_group(ext, seq!["cpp"@, "c"@, "h"@, "hpp"@]) { "⚡"@ }
    else if in_group(ext, seq!["go"@]) { "🐹"@ }
    else if in_group(ext, seq!["php"@]) { "🐘"@ }
    else if in_group(ext, seq!["rb"@]) { "💎"@ }
    else if in_group(ext, seq!["cs"@]) { "🔷"@ }
    else if in_group(ext, seq!["html"@, "htm"@]) { "🌐"@ }
    else if in_group(ext, seq!["css"@, "scss"@, "sass"@]) { "🎨"@ }
    else if in_group(ext, seq!["json"@, "xml"@, "yaml"@, "yml"@, "toml"@]) { "📋"@ }
    else { "📄"@ }
}

fn group(ext: &Option<String>, names: &[&str]) -> (r: bool)
    ensures
        r == in_group(crate::search::option_string_view(*ext), views(names@)),
{
    match ext {
        Some(e) => one_of(e.as_str(), names),
        None => false,
    }
}

/// The icon of `result` in the first search window.
pub fn panel_icon(result: &SearchResult) -> (r: &'static str)
    ensures
        r@ == panel_icon_for(result.is_directory, crate::search::option_string_view(result.extension)),
{
    let e = &result.extension;
    let ghost x = crate::search::option_string_view(result.extension);
    assert(views(["exe"]@) =~= seq!["exe"@]);
    assert(views(["txt"]@) =~= seq!["txt"@]);
    assert(views(["pdf"]@) =~= seq!["pdf"@]);
    assert(views(["jpg", "png", "gif"]@) =~= seq!["jpg"@, "png"@, "gif"@]);
    assert(views(["mp3", "wav"]@) =~= seq!["mp3"@, "wav"@]);
    assert(views(["mp4", "avi"]@) =~= seq!["mp4"@, "avi"@]);
    assert(views(["zip", "rar"]@) =~= seq!["zip"@, "rar"@]);
    if result.is_directory { "📁" }
    else if group(e, &["exe"]) { "⚙️" }
    else if group(e, &["txt"]) { "📄" }
    else if group(e, &["pdf"]) { "📕" }
    else if group(e, &["jpg", "png", "gif"]) { "🖼️" }
    else if group(e, &["mp3", "wav"]) { "🎵" }
    else if group(e, &["mp4", "avi"]) { "🎬" }
    else if group(e, &["zip", "rar"]) { "📦" }
    else { "📄" }
}

/// The icon of `result` in the command-palette window.
pub fn palette_icon(result: &SearchResult) -> (r: &'static str)
    ensures
        r@ == palette_icon_for(result.is_directory, crate::search::option_string_view(result.extension)),
{
    let e = &result.extension;
    assert(views(["exe", "msi"]@) =~= seq!["exe"@, "msi"@]);
    assert(views(["txt", "md"]@) =~= seq!["txt"@, "md"@]);
    assert(views(["pdf"]@) =~= seq!["pdf"@]);
    assert(views(["docx", "doc"]@) =~= seq!["docx"@, "doc"@]);
    assert(views(["xlsx", "xls"]@) =~= seq!["xlsx"@, "xls"@]);
    assert(views(["pptx", "ppt"]@) =~= seq!["pptx"@, "ppt"@]);
    assert(views(["jpg", "jpeg", "png", "gif", "bmp"]@) =~= seq!["jpg"@, "jpeg"@, "png"@, "gif"@, "bmp"@]);
    assert(views(["mp3", "wav", "flac", "m4a"]@) =~= seq!["mp3"@, "wav"@, "flac"@, "m4a"@]);
    assert(views(["mp4", "avi", "mkv", "mov"]@) =~= seq!["mp4"@, "avi"@, "mkv"@, "mov"@]);
    assert(views(["zip", "rar", "7z", "tar", "gz"]@) =~= seq!["zip"@, "rar"@, "7z"@, "tar"@, "gz"@]);
    assert(views(["rs", "py", "js", "ts", "java"]@) =~= seq!["rs"@, "py"@, "js"@, "ts"@, "java"@]);
    assert(views(["html", "css", "json", "xml"]@) =~= seq!["html"@, "css"@, "json"@, "xml"@]);
    if result.is_directory { "📁" }
    else if group(e, &["exe", "msi"]) { "⚙️" }
    else if group(e, &["txt", "md"]) { "📄" }
    else if group(e, &["pdf"]) { "📕" }
    else if group(e, &["docx", "doc"]) { "📘" }
    else if group(e, &["xlsx", "xls"]) { "📗" }
    else if group(e, &["pptx", "ppt"]) { "📙" }
    else if group(e, &["jpg", "jpeg", "png", "gif", "bmp"]) { "🖼️" }
    else if group(e, &["mp3", "wav", "flac", "m4a"]) { "🎵" }
    else if group(e, &["mp4", "avi", "mkv", "mov"]) { "🎬" }
    else if group(e, &["zip", "rar", "7z", "tar", "gz"]) { "📦" }
    else if group(e, &["rs", "py", "js", "ts", "java"]) { "💻" }
    else if group(e, &["html", "css", "json", "xml"]) { "🌐" }
    else { "📄" }
}

/// The icon of `result` in the launcher window.
pub fn file_icon(result: &SearchResult) -> (r: &'static str)
    ensures
        r@ == launcher_icon_for(result.is_directory, crate::search::option_string_view(result.extension)),
{
    let e = &result.extension;
    assert(views(["exe", "msi"]@) =~= seq!["exe"@, "msi"@]);
    assert(views(["pdf"]@) =~= seq!["pdf"@]);
    assert(views(["docx", "doc"]@) =~= seq!["docx"@, "doc"@]);
    assert(views(["xlsx", "xls"]@) =~= seq!["xlsx"@, "xls"@]);
    assert(views(["pptx", "ppt"]@) =~= seq!["pptx"@, "ppt"@]);
    assert(views(["txt", "md"]@) =~= seq!["txt"@, "md"@]);
    assert(views(["jpg", "jpeg", "png", "gif", "bmp", "svg", "ico"]@) =~= seq!["jpg"@, "jpeg"@, "png"@, "gif"@, "bmp"@, "svg"@, "ico"@]);
    assert(views(["mp3", "wav", "flac", "m4a", "aac", "ogg"]@) =~= seq!["mp3"@, "wav"@, "flac"@, "m4a"@, "aac"@, "ogg"@]);
    assert(views(["mp4", "avi", "mkv", "mov", "wmv", "flv"]@) =~= seq!["mp4"@, "avi"@, "mkv"@, "mov"@, "wmv"@, "flv"@]);
    assert(views(["zip", "rar", "7z", "tar", "gz", "bz2"]@) =~= seq!["zip"@, "rar"@, "7z"@, "tar"@, "gz"@, "bz2"@]);
    assert(views(["rs"]@) =~= seq!["rs"@]);
    assert(views(["py"]@) =~= seq!["py"@]);
    assert(views(["js", "ts", "jsx", "tsx"]@) =~= seq!["js"@, "ts"@, "jsx"@, "tsx"@]);
    assert(views(["java", "class", "jar"]@) =~= seq!["java"@, "class"@, "jar"@]);
    assert(views(["cpp", "c", "h", "hpp"]@) =~= seq!["cpp"@, "c"@, "h"@, "hpp"@]);
    assert(views(["go"]@) =~= seq!["go"@]);
    assert(views(["php"]@) =~= seq!["php"@]);
    assert(views(["rb"]@) =~= seq!["rb"@]);
    assert(views(["cs"]@) =~= seq!["cs"@]);
    assert(views(["html", "htm"]@) =~= seq!["html"@, "htm"@]);
    assert(views(["css", "scss", "sass"]@) =~= seq!["css"@, "scss"@, "sass"@]);
    assert(views(["json", "xml", "yaml", "yml", "toml"]@) =~= seq!["json"@, "xml"@, "yaml"@, "yml"@, "toml"@]);
    if result.is_directory { "📁" }
    else if group(e, &["exe", "msi"]) { "⚙️" }
    else if group(e, &["pdf"]) { "📕" }
    else if group(e, &["docx", "doc"]) { "📘" }
    else if group(e, &["xlsx", "xls"]) { "📗" }
    else if group(e, &["pptx", "ppt"]) { "📙" }
    else if group(e, &["txt", "md"]) { "📝" }
    else if group(e, &["jpg", "jpeg", "png", "gif", "bmp", "svg", "ico"]) { "🖼️" }
    else if group(e, &["mp3", "wav", "flac", "m4a", "aac", "ogg"]) { "🎵" }
    else if group(e, &["mp4", "avi", "mkv", "mov", "wmv", "flv"]) { "🎬" }
    else if group(e, &["zip", "rar", "7z", "tar", "gz", "bz2"]) { "📦" }
    else if group(e, &["rs"]) { "🦀" }
    else if group(e, &["py"]) { "🐍" }
    else if group(e, &["js", "ts", "jsx", "tsx"]) { "📜" }
    else if group(e, &["java", "class", "jar"]) { "☕" }
    else if group(e, &["cpp", "c", "h", "hpp"]) { "⚡" }
    else if group(e, &["go"]) { "🐹" }
    else if group(e, &["php"]) { "🐘" }
    else if group(e, &["rb"]) { "💎" }
    else if group(e, &["cs"]) { "🔷" }
    else if group(e, &["html", "htm"]) { "🌐" }
    else if group(e, &["css", "scss", "sass"]) { "🎨" }
    else if group(e, &["json", "xml", "yaml", "yml", "toml"]) { "📋" }
    else { "📄" }
}

/// The letters of every extension the icon tables name (so that two
/// different extensions are seen to differ).
proof fn lemma_extension_letters()
    ensures
        "exe"@.len() == 3 && "exe"@[0] == 'e' && "exe"@[1] == 'x' && "exe"@[2] == 'e',
        "txt"@.len() == 3 && "txt"@[0] == 't' && "txt"@[1] == 'x' && "txt"@[2] == 't',
        "pdf"@.len() == 3 && "pdf"@[0] == 'p' && "pdf"@[1] == 'd' && "pdf"@[2] == 'f',
        "jpg"@.len() == 3 && "jpg"@[0] == 'j' && "jpg"@[1] == 'p' && "jpg"@[2] == 'g',
        "png"@.len() == 3 && "png"@[0] == 'p' && "png"@[1] == 'n' && "png"@[2] == 'g',
        "gif"@.len() == 3 && "gif"@[0] == 'g' && "gif"@[1] == 'i' && "gif"@[2] == 'f',
        "mp3"@.len() == 3 && "mp3"@[0] == 'm' && "mp3"@[1] == 'p' && "mp3"@[2] == '3',
        "wav"@.len() == 3 && "wav"@[0] == 'w' && "wav"@[1] == 'a' && "wav"@[2] == 'v',
        "mp4"@.len() == 3 && "mp4"@[0] == 'm' && "mp4"@[1] == 'p' && "mp4"@[2] == '4',
        "avi"@.len() == 3 && "avi"@[0] == 'a' && "avi"@[1] == 'v' && "avi"@[2] == 'i',
        "zip"@.len() == 3 && "zip"@[0] == 'z' && "zip"@[1] == 'i' && "zip"@[2] == 'p',
        "rar"@.len() == 3 && "rar"@[0] == 'r' && "rar"@[1] == 'a' && "rar"@[2] == 'r',
        "msi"@.len() == 3 && "msi"@[0] == 'm' && "msi"@[1] == 's' && "msi"@[2] == 'i',
        "md"@.len() == 2 && "md"@[0] == 'm' && "md"@[1] == 'd',
        "docx"@.len() == 4 && "docx"@[0] == 'd' && "docx"@[1] == 'o' && "docx"@[2] == 'c' && "docx"@[3] == 'x',
        "doc"@.len() == 3 && "doc"@[0] == 'd' && "doc"@[1] == 'o' && "doc"@[2] == 'c',
        "xlsx"@.len() == 4 && "xlsx"@[0] == 'x' && "xlsx"@[1] == 'l' && "xlsx"@[2] == 's' && "xlsx"@[3] == 'x',
        "xls"@.len() == 3 && "xls"@[0] == 'x' && "xls"@[1] == 'l' && "xls"@[2] == 's',
        "pptx"@.len() == 4 && "pptx"@[0] == 'p' && "pptx"@[1] == 'p' && "pptx"@[2] == 't' && "pptx"@[3] == 'x',
        "ppt"@.len() == 3 && "ppt"@[0] == 'p' && "ppt"@[1] == 'p' && "ppt"@[2] == 't',
        "jpeg"@.len() == 4 && "jpeg"@[0] == 'j' && "jpeg"@[1] == 'p' && "jpeg"@[2] == 'e' && "jpeg"@[3] == 'g',
        "bmp"@.len() == 3 && "bmp"@[0] == 'b' && "bmp"@[1] == 'm' && "bmp"@[2] == 'p',
        "flac"@.len() == 4 && "flac"@[0] == 'f' && "flac"@[1] == 'l' && "flac"@[2] == 'a' && "flac"@[3] == 'c',
        "m4a"@.len() == 3 && "m4a"@[0] == 'm' && "m4a"@[1] == '4' && "m4a"@[2] == 'a',
        "mkv"@.len() == 3 && "mkv"@[0] == 'm' && "mkv"@[1] == 'k' && "mkv"@[2] == 'v',
        "mov"@.len() == 3 && "mov"@[0] == 'm' && "mov"@[1] == 'o' && "mov"@[2] == 'v',
        "7z"@.len() == 2 && "7z"@[0] == '7' && "7z"@[1] == 'z',
        "tar"@.len() == 3 && "tar"@[0] == 't' && "tar"@[1] == 'a' && "tar"@[2] == 'r',
        "gz"@.len() == 2 && "gz"@[0] == 'g' && "gz"@[1] == 'z',
        "rs"@.len() == 2 && "rs"@[0] == 'r' && "rs"@[1] == 's',
        "py"@.len() == 2 && "py"@[0] == 'p' && "py"@[1] == 'y',
        "js"@.len() == 2 && "js"@[0] == 'j' && "js"@[1] == 's',
        "ts"@.len() == 2 && "ts"@[0] == 't' && "ts"@[1] == 's',
        "java"@.len() == 4 && "java"@[0] == 'j' && "java"@[1] == 'a' && "java"@[2] == 'v' && "java"@[3] == 'a',
        "html"@.len() == 4 && "html"@[0] == 'h' && "html"@[1] == 't' && "html"@[2] == 'm' && "html"@[3] == 'l',
        "css"@.len() == 3 && "css"@[0] == 'c' && "css"@[1] == 's' && "css"@[2] == 's',
        "json"@.len() == 4 && "json"@[0] == 'j' && "json"@[1] == 's' && "json"@[2] == 'o' && "json"@[3] == 'n',
        "xml"@.len() == 3 && "xml"@[0] == 'x' && "xml"@[1] == 'm' && "xml"@[2] == 'l',
        "svg"@.len() == 3 && "svg"@[0] == 's' && "svg"@[1] == 'v' && "svg"@[2] == 'g',
        "ico"@.len() == 3 && "ico"@[0] == 'i' && "ico"@[1] == 'c' && "ico"@[2] == 'o',
        "aac"@.len() == 3 && "aac"@[0] == 'a' && "aac"@[1] == 'a' && "aac"@[2] == 'c',
        "ogg"@.len() == 3 && "ogg"@[0] == 'o' && "ogg"@[1] == 'g' && "ogg"@[2] == 'g',
        "wmv"@.len() == 3 && "wmv"@[0] == 'w' && "wmv"@[1] == 'm' && "wmv"@[2] == 'v',
        "flv"@.len() == 3 && "flv"@[0] == 'f' && "flv"@[1] == 'l' && "flv"@[2] == 'v',
        "bz2"@.len() == 3 && "bz2"@[0] == 'b' && "bz2"@[1] == 'z' && "bz2"@[2] == '2',
        "jsx"@.len() == 3 && "jsx"@[0] == 'j' && "jsx"@[1] == 's' && "jsx"@[2] == 'x',
        "tsx"@.len() == 3 && "tsx"@[0] == 't' && "tsx"@[1] == 's' && "tsx"@[2] == 'x',
        "class"@.len() == 5 && "class"@[0] == 'c' && "class"@[1] == 'l' && "class"@[2] == 'a' && "class"@[3] == 's' && "class"@[4] == 's',
        "jar"@.len() == 3 && "jar"@[0] == 'j' && "jar"@[1] == 'a' && "jar"@[2] == 'r',
        "cpp"@.len() == 3 && "cpp"@[0] == 'c' && "cpp"@[1] == 'p' && "cpp"@[2] == 'p',
        "c"@.len() == 1 && "c"@[0] == 'c',
        "h"@.len() == 1 && "h"@[0] == 'h',
        "hpp"@.len() == 3 && "hpp"@[0] == 'h' && "hpp"@[1] == 'p' && "hpp"@[2] == 'p',
        "go"@.len() == 2 && "go"@[0] == 'g' && "go"@[1] == 'o',
        "php"@.len() == 3 && "php"@[0] == 'p' && "php"@[1] == 'h' && "php"@[2] == 'p',
        "rb"@.len() == 2 && "rb"@[0] == 'r' && "rb"@[1] == 'b',
        "cs"@.len() == 2 && "cs"@[0] == 'c' && "cs"@[1] == 's',
        "htm"@.len() == 3 && "htm"@[0] == 'h' && "htm"@[1] == 't' && "htm"@[2] == 'm',
        "scss"@.len() == 4 && "scss"@[0] == 's' && "scss"@[1] == 'c' && "scss"@[2] == 's' && "scss"@[3] == 's',
        "sass"@.len() == 4 && "sass"@[0] == 's' && "sass"@[1] == 'a' && "sass"@[2] == 's' && "sass"@[3] == 's',
        "yaml"@.len() == 4 && "yaml"@[0] == 'y' && "yaml"@[1] == 'a' && "yaml"@[2] == 'm' && "yaml"@[3] == 'l',
        "yml"@.len() == 3 && "yml"@[0] == 'y' && "yml"@[1] == 'm' && "yml"@[2] == 'l',
        "toml"@.len() == 4 && "toml"@[0] == 't' && "toml"@[1] == 'o' && "toml"@[2] == 'm' && "toml"@[3] == 'l',
{
    reveal_strlit("exe");
    reveal_strlit("txt");
    reveal_strlit("pdf");
    reveal_strlit("jpg");
    reveal_strlit("png");
    reveal_strlit("gif");
    reveal_strlit("mp3");
    reveal_strlit("wav");
    reveal_strlit("mp4");
    reveal_strlit("avi");
    reveal_strlit("zip");
    reveal_strlit("rar");
    reveal_strlit("msi");
    reveal_strlit("md");
    reveal_strlit("docx");
    reveal_strlit("doc");
    reveal_strlit("xlsx");
    reveal_strlit("xls");
    reveal_strlit("pptx");
    reveal_strlit("ppt");
    reveal_strlit("jpeg");
    reveal_strlit("bmp");
    reveal_strlit("flac");
    reveal_strlit("m4a");
    reveal_strlit("mkv");
    reveal_strlit("mov");
    reveal_strlit("7z");
    reveal_strlit("tar");
    reveal_strlit("gz");
    reveal_strlit("rs");
    reveal_strlit("py");
    reveal_strlit("js");
    reveal_strlit("ts");
    reveal_strlit("java");
    reveal_strlit("html");
    reveal_strlit("css");
    reveal_strlit("json");
    reveal_strlit("xml");
    reveal_strlit("svg");
    reveal_strlit("ico");
    reveal_strlit("aac");
    reveal_strlit("ogg");
    reveal_strlit("wmv");
    reveal_strlit("flv");
    reveal_strlit("bz2");
    reveal_strlit("jsx");
    reveal_strlit("tsx");
    reveal_strlit("class");
    reveal_strlit("jar");
    reveal_strlit("cpp");
    reveal_strlit("c");
    reveal_strlit("h");
    reveal_strlit("hpp");
    reveal_strlit("go");
    reveal_strlit("php");
    reveal_strlit("rb");
    reveal_strlit("cs");
    reveal_strlit("htm");
    reveal_strlit("scss");
    reveal_strlit("sass");
    reveal_strlit("yaml");
    reveal_strlit("yml");
    reveal_strlit("toml");
}

/// The icon table of the first search window (`panel_icon`), extension by
/// extension: folders get the
/// folder icon; each listed extension (compared exactly) gets its group's
/// icon; any other extension, and none, gets the default icon.
pub proof fn panel_icons_by_extension(ext: Option<Seq<char>>, e: Seq<char>)
    ensures
        panel_icon_for(true, ext) == "📁"@,
        panel_icon_for(false, None) == "📄"@,
        e == "exe"@ ==> panel_icon_for(false, Some(e)) == "⚙️"@,
        e == "txt"@ ==> panel_icon_for(false, Some(e)) == "📄"@,
        e == "pdf"@ ==> panel_icon_for(false, Some(e)) == "📕"@,
        (e == "jpg"@ || e == "png"@ || e == "gif"@) ==> panel_icon_for(false, Some(e)) == "🖼️"@,
        (e == "mp3"@ || e == "wav"@) ==> panel_icon_for(false, Some(e)) == "🎵"@,
        (e == "mp4"@ || e == "avi"@) ==> panel_icon_for(false, Some(e)) == "🎬"@,
        (e == "zip"@ || e == "rar"@) ==> panel_icon_for(false, Some(e)) == "📦"@,
        (e != "exe"@ && e != "txt"@ && e != "pdf"@ && e != "jpg"@ && e != "png"@ && e != "gif"@ && e != "mp3"@ && e != "wav"@ && e != "mp4"@ && e != "avi"@ && e != "zip"@ && e != "rar"@) ==> panel_icon_for(false, Some(e)) == "📄"@,
{
    lemma_extension_letters();
    assert(seq!["exe"@].contains(e) <==> (e == "exe"@)) by {
        assert(seq!["exe"@][0] == "exe"@);
    }
    assert(seq!["txt"@].contains(e) <==> (e == "txt"@)) by {
        assert(seq!["txt"@][0] == "txt"@);
    }
    assert(seq!["pdf"@].contains(e) <==> (e == "pdf"@)) by {
        assert(seq!["pdf"@][0] == "pdf"@);
    }
    assert(seq!["jpg"@, "png"@, "gif"@].contains(e) <==> (e == "jpg"@ || e == "png"@ || e == "gif"@)) by {
        assert(seq!["jpg"@, "png"@, "gif"@][0] == "jpg"@);
        assert(seq!["jpg"@, "png"@, "gif"@][1] == "png"@);
        assert(seq!["jpg"@, "png"@, "gif"@][2] == "gif"@);
    }
    assert(seq!["mp3"@, "wav"@].contains(e) <==> (e == "mp3"@ || e == "wav"@)) by {
        assert(seq!["mp3"@, "wav"@][0] == "mp3"@);
        assert(seq!["mp3"@, "wav"@][1] == "wav"@);
    }
    assert(seq!["mp4"@, "avi"@].contains(e) <==> (e == "mp4"@ || e == "avi"@)) by {
        assert(seq!["mp4"@, "avi"@][0] == "mp4"@);
        assert(seq!["mp4"@, "avi"@][1] == "avi"@);
    }
    assert(seq!["zip"@, "rar"@].contains(e) <==> (e == "zip"@ || e == "rar"@)) by {
        assert(seq!["zip"@, "rar"@][0] == "zip"@);
        assert(seq!["zip"@, "rar"@][1] == "rar"@);
    }
}

/// The icon table of the command-palette window (`palette_icon`), extension by extension: folders get the
/// folder icon; each listed extension (compared exactly) gets its group's
/// icon; any other extension, and none, gets the default icon.
pub proof fn palette_icons_by_extension(ext: Option<Seq<char>>, e: Seq<char>)
    ensures
        palette_icon_for(true, ext) == "📁"@,
        palette_icon_for(false, None) == "📄"@,
        (e == "exe"@ || e == "msi"@) ==> palette_icon_for(false, Some(e)) == "⚙️"@,
        (e == "txt"@ || e == "md"@) ==> palette_icon_for(false, Some(e)) == "📄"@,
        e == "pdf"@ ==> palette_icon_for(false, Some(e)) == "📕"@,
        (e == "docx"@ || e == "doc"@) ==> palette_icon_for(false, Some(e)) == "📘"@,
        (e == "xlsx"@ || e == "xls"@) ==> palette_icon_for(false, Some(e)) == "📗"@,
        (e == "pptx"@ || e == "ppt"@) ==> palette_icon_for(false, Some(e)) == "📙"@,
        (e == "jpg"@ || e == "jpeg"@ || e == "png"@ || e == "gif"@ || e == "bmp"@) ==> palette_icon_for(false, Some(e)) == "🖼️"@,
        (e == "mp3"@ || e == "wav"@ || e == "flac"@ || e == "m4a"@) ==> palette_icon_for(false, Some(e)) == "🎵"@,
        (e == "mp4"@ || e == "avi"@ || e == "mkv"@ || e == "mov"@) ==> palette_icon_for(false, Some(e)) == "🎬"@,
        (e == "zip"@ || e == "rar"@ || e == "7z"@ || e == "tar"@ || e == "gz"@) ==> palette_icon_for(false, Some(e)) == "📦"@,
        (e == "rs"@ || e == "py"@ || e == "js"@ || e == "ts"@ || e == "java"@) ==> palette_icon_for(false, Some(e)) == "💻"@,
        (e == "html"@ || e == "css"@ || e == "json"@ || e == "xml"@) ==> palette_icon_for(false, Some(e)) == "🌐"@,
        (e != "exe"@ && e != "msi"@ && e != "txt"@ && e != "md"@ && e != "pdf"@ && e != "docx"@ && e != "doc"@ && e != "xlsx"@ && e != "xls"@ && e != "pptx"@ && e != "ppt"@ && e != "jpg"@ && e != "jpeg"@ && e != "png"@ && e != "gif"@ && e != "bmp"@ && e != "mp3"@ && e != "wav"@ && e != "flac"@ && e != "m4a"@ && e != "mp4"@ && e != "avi"@ && e != "mkv"@ && e != "mov"@ && e != "zip"@ && e != "rar"@ && e != "7z"@ && e != "tar"@ && e != "gz"@ && e != "rs"@ && e != "py"@ && e != "js"@ && e != "ts"@ && e != "java"@ && e != "html"@ && e != "css"@ && e != "json"@ && e != "xml"@) ==> palette_icon_for(false, Some(e)) == "📄"@,
{
    lemma_extension_letters();
    assert(seq!["exe"@, "msi"@].contains(e) <==> (e == "exe"@ || e == "msi"@)) by {
        assert(seq!["exe"@, "msi"@][0] == "exe"@);
        assert(seq!["exe"@, "msi"@][1] == "msi"@);
    }
    assert(seq!["txt"@, "md"@].contains(e) <==> (e == "txt"@ || e == "md"@)) by {
        assert(seq!["txt"@, "md"@][0] == "txt"@);
        assert(seq!["txt"@, "md"@][1] == "md"@);
    }
    assert(seq!["pdf"@].contains(e) <==> (e == "pdf"@)) by {
        assert(seq!["pdf"@][0] == "pdf"@);
    }
    assert(seq!["docx"@, "doc"@].contains(e) <==> (e == "docx"@ || e == "doc"@)) by {
        assert(seq!["docx"@, "doc"@][0] == "docx"@);
        assert(seq!["docx"@, "doc"@][1] == "doc"@);
    }
    assert(seq!["xlsx"@, "xls"@].contains(e) <==> (e == "xlsx"@ || e == "xls"@)) by {
        assert(seq!["xlsx"@, "xls"@][0] == "xlsx"@);
        assert(seq!["xlsx"@, "xls"@][1] == "xls"@);
    }
    assert(seq!["pptx"@, "ppt"@].contains(e) <==> (e == "pptx"@ || e == "ppt"@)) by {
        assert(seq!["pptx"@, "ppt"@][0] == "pptx"@);
        assert(seq!["pptx"@, "ppt"@][1] == "ppt"@);
    }
    assert(seq!["jpg"@, "jpeg"@, "png"@, "gif"@, "bmp"@].contains(e) <==> (e == "jpg"@ || e == "jpeg"@ || e == "png"@ || e == "gif"@ || e == "bmp"@)) by {
        assert(seq!["jpg"@, "jpeg"@, "png"@, "gif"@, "bmp"@][0] == "jpg"@);
        assert(seq!["jpg"@, "jpeg"@, "png"@, "gif"@, "bmp"@][1] == "jpeg"@);
        assert(seq!["jpg"@, "jpeg"@, "png"@, "gif"@, "bmp"@][2] == "png"@);
        assert(seq!["jpg"@, "jpeg"@, "png"@, "gif"@, "bmp"@][3] == "gif"@);
        assert(seq!["jpg"@, "jpeg"@, "png"@, "gif"@, "bmp"@][4] == "bmp"@);
    }
    assert(seq!["mp3"@, "wav"@, "flac"@, "m4a"@].contains(e) <==> (e == "mp3"@ || e == "wav"@ || e == "flac"@ || e == "m4a"@)) by {
        assert(seq!["mp3"@, "wav"@, "flac"@, "m4a"@][0] == "mp3"@);
        assert(seq!["mp3"@, "wav"@, "flac"@, "m4a"@][1] == "wav"@);
        assert(seq!["mp3"@, "wav"@, "flac"@, "m4a"@][2] == "flac"@);
        assert(seq!["mp3"@, "wav"@, "flac"@, "m4a"@][3] == "m4a"@);
    }
    assert(seq!["mp4"@, "avi"@, "mkv"@, "mov"@].contains(e) <==> (e == "mp4"@ || e == "avi"@ || e == "mkv"@ || e == "mov"@)) by {
        assert(seq!["mp4"@, "avi"@, "mkv"@, "mov"@][0] == "mp4"@);
        assert(seq!["mp4"@, "avi"@, "mkv"@, "mov"@][1] == "avi"@);
        assert(seq!["mp4"@, "avi"@, "mkv"@, "mov"@][2] == "mkv"@);
        assert(seq!["mp4"@, "avi"@, "mkv"@, "mov"@][3] == "mov"@);
    }
    assert(seq!["zip"@, "rar"@, "7z"@, "tar"@, "gz"@].contains(e) <==> (e == "zip"@ || e == "rar"@ || e == "7z"@ || e == "tar"@ || e == "gz"@)) by {
        assert(seq!["zip"@, "rar"@, "7z"@, "tar"@, "gz"@][0] == "zip"@);
        assert(seq!["zip"@, "rar"@, "7z"@, "tar"@, "gz"@][1] == "rar"@);
        assert(seq!["zip"@, "rar"@, "7z"@, "tar"@, "gz"@][2] == "7z"@);
        assert(seq!["zip"@, "rar"@, "7z"@, "tar"@, "gz"@][3] == "tar"@);
        assert(seq!["zip"@, "rar"@, "7z"@, "tar"@, "gz"@][4] == "gz"@);
    }
    assert(seq!["rs"@, "py"@, "js"@, "ts"@, "java"@].contains(e) <==> (e == "rs"@ || e == "py"@ || e == "js"@ || e == "ts"@ || e == "java"@)) by {
        assert(seq!["rs"@, "py"@, "js"@, "ts"@, "java"@][0] == "rs"@);
        assert(seq!["rs"@, "py"@, "js"@, "ts"@, "java"@][1] == "py"@);
        assert(seq!["rs"@, "py"@, "js"@, "ts"@, "java"@][2] == "js"@);
        assert(seq!["rs"@, "py"@, "js"@, "ts"@, "java"@][3] == "ts"@);
        assert(seq!["rs"@, "py"@, "js"@, "ts"@, "java"@][4] == "java"@);
    }
    assert(seq!["html"@, "css"@, "json"@, "xml"@].contains(e) <==> (e == "html"@ || e == "css"@ || e == "json"@ || e == "xml"@)) by {
        assert(seq!["html"@, "css"@, "json"@, "xml"@][0] == "html"@);
        assert(seq!["html"@, "css"@, "json"@, "xml"@][1] == "css"@);
        assert(seq!["html"@, "css"@, "json"@, "xml"@][2] == "json"@);
        assert(seq!["html"@, "css"@, "json"@, "xml"@][3] == "xml"@);
    }
}

/// The icon table of the launcher window (`file_icon`), extension by extension: folders get the
/// folder icon; each listed extension (compared exactly) gets its group's
/// icon; any other extension, and none, gets the default icon.
pub proof fn launcher_icons_by_extension(ext: Option<Seq<char>>, e: Seq<char>)
    ensures
        launcher_icon_for(true, ext) == "📁"@,
        launcher_icon_for(false, None) == "📄"@,
        (e == "exe"@ || e == "msi"@) ==> launcher_icon_for(false, Some(e)) == "⚙️"@,
        e == "pdf"@ ==> launcher_icon_for(false, Some(e)) == "📕"@,
        (e == "docx"@ || e == "doc"@) ==> launcher_icon_for(false, Some(e)) == "📘"@,
        (e == "xlsx"@ || e == "xls"@) ==> launcher_icon_for(false, Some(e)) == "📗"@,
        (e == "pptx"@ || e == "ppt"@) ==> launcher_icon_for(false, Some(e)) == "📙"@,
        (e == "txt"@ || e == "md"@) ==> launcher_icon_for(false, Some(e)) == "📝"@,
        (e == "jpg"@ || e == "jpeg"@ || e == "png"@ || e == "gif"@ || e == "bmp"@ || e == "svg"@ || e == "ico"@) ==> launcher_icon_for(false, Some(e)) == "🖼️"@,
        (e == "mp3"@ || e == "wav"@ || e == "flac"@ || e == "m4a"@ || e == "aac"@ || e == "ogg"@) ==> launcher_icon_for(false, Some(e)) == "🎵"@,
        (e == "mp4"@ || e == "avi"@ || e == "mkv"@ || e == "mov"@ || e == "wmv"@ || e == "flv"@) ==> launcher_icon_for(false, Some(e)) == "🎬"@,
        (e == "zip"@ || e == "rar"@ || e == "7z"@ || e == "tar"@ || e == "gz"@ || e == "bz2"@) ==> launcher_icon_for(false, Some(e)) == "📦"@,
        e == "rs"@ ==> launcher_icon_for(false, Some(e)) == "🦀"@,
        e == "py"@ ==> launcher_icon_for(false, Some(e)) == "🐍"@,
        (e == "js"@ || e == "ts"@ || e == "jsx"@ || e == "tsx"@) ==> launcher_icon_for(false, Some(e)) == "📜"@,
        (e == "java"@ || e == "class"@ || e == "jar"@) ==> launcher_icon_for(false, Some(e)) == "☕"@,
        (e == "cpp"@ || e == "c"@ || e == "h"@ || e == "hpp"@) ==> launcher_icon_for(false, Some(e)) == "⚡"@,
        e == "go"@ ==> launcher_icon_for(false, Some(e)) == "🐹"@,
        e == "php"@ ==> launcher_icon_for(false, Some(e)) == "🐘"@,
        e == "rb"@ ==> launcher_icon_for(false, Some(e)) == "💎"@,
        e == "cs"@ ==> launcher_icon_for(false, Some(e)) == "🔷"@,
        (e == "html"@ || e == "htm"@) ==> launcher_icon_for(false, Some(e)) == "🌐"@,
        (e == "css"@ || e == "scss"@ || e == "sass"@) ==> launcher_icon_for(false, Some(e)) == "🎨"@,
        (e == "json"@ || e == "xml"@ || e == "yaml"@ || e == "yml"@ || e == "toml"@) ==> launcher_icon_for(false, Some(e)) == "📋"@,
        (e != "exe"@ && e != "msi"@ && e != "pdf"@ && e != "docx"@ && e != "doc"@ && e != "xlsx"@ && e != "xls"@ && e != "pptx"@ && e != "ppt"@ && e != "txt"@ && e != "md"@ && e != "jpg"@ && e != "jpeg"@ && e != "png"@ && e != "gif"@ && e != "bmp"@ && e != "svg"@ && e != "ico"@ && e != "mp3"@ && e != "wav"@ && e != "flac"@ && e != "m4a"@ && e != "aac"@ && e != "ogg"@ && e != "mp4"@ && e != "avi"@ && e != "mkv"@ && e != "mov"@ && e != "wmv"@ && e != "flv"@ && e != "zip"@ && e != "rar"@ && e != "7z"@ && e != "tar"@ && e != "gz"@ && e != "bz2"@ && e != "rs"@ && e != "py"@ && e != "js"@ && e != "ts"@ && e != "jsx"@ && e != "tsx"@ && e != "java"@ && e != "class"@ && e != "jar"@ && e != "cpp"@ && e != "c"@ && e != "h"@ && e != "hpp"@ && e != "go"@ && e != "php"@ && e != "rb"@ && e != "cs"@ && e != "html"@ && e != "htm"@ && e != "css"@ && e != "scss"@ && e != "sass"@ && e != "json"@ && e != "xml"@ && e != "yaml"@ && e != "yml"@ && e != "toml"@) ==> launcher_icon_for(false, Some(e)) == "📄"@,
{
    lemma_extension_letters();
    assert(seq!["exe"@, "msi"@].contains(e) <==> (e == "exe"@ || e == "msi"@)) by {
        assert(seq!["exe"@, "msi"@][0] == "exe"@);
        assert(seq!["exe"@, "msi"@][1] == "msi"@);
    }
    assert(seq!["pdf"@].contains(e) <==> (e == "pdf"@)) by {
        assert(seq!["pdf"@][0] == "pdf"@);
    }
    assert(seq!["docx"@, "doc"@].contains(e) <==> (e == "docx"@ || e == "doc"@)) by {
        assert(seq!["docx"@, "doc"@][0] == "docx"@);
        assert(seq!["docx"@, "doc"@][1] == "doc"@);
    }
    assert(seq!["xlsx"@, "xls"@].contains(e) <==> (e == "xlsx"@ || e == "xls"@)) by {
        assert(seq!["xlsx"@, "xls"@][0] == "xlsx"@);
        assert(seq!["xlsx"@, "xls"@][1] == "xls"@);
    }
    assert(seq!["pptx"@, "ppt"@].contains(e) <==> (e == "pptx"@ || e == "ppt"@)) by {
        assert(seq!["pptx"@, "ppt"@][0] == "pptx"@);
        assert(seq!["pptx"@, "ppt"@][1] == "ppt"@);
    }
    assert(seq!["txt"@, "md"@].contains(e) <==> (e == "txt"@ || e == "md"@)) by {
        assert(seq!["txt"@, "md"@][0] == "txt"@);
        assert(seq!["txt"@, "md"@][1] == "md"@);
    }
    assert(seq!["jpg"@, "jpeg"@, "png"@, "gif"@, "bmp"@, "svg"@, "ico"@].contains(e) <==> (e == "jpg"@ || e == "jpeg"@ || e == "png"@ || e == "gif"@ || e == "bmp"@ || e == "svg"@ || e == "ico"@)) by {
        assert(seq!["jpg"@, "jpeg"@, "png"@, "gif"@, "bmp"@, "svg"@, "ico"@][0] == "jpg"@);
        assert(seq!["jpg"@, "jpeg"@, "png"@, "gif"@, "bmp"@, "svg"@, "ico"@][1] == "jpeg"@);
        assert(seq!["jpg"@, "jpeg"@, "png"@, "gif"@, "bmp"@, "svg"@, "ico"@][2] == "png"@);
        assert(seq!["jpg"@, "jpeg"@, "png"@, "gif"@, "bmp"@, "svg"@, "ico"@][3] == "gif"@);
        assert(seq!["jpg"@, "jpeg"@, "png"@, "gif"@, "bmp"@, "svg"@, "ico"@][4] == "bmp"@);
        assert(seq!["jpg"@, "jpeg"@, "png"@, "gif"@, "bmp"@, "svg"@, "ico"@][5] == "svg"@);
        assert(seq!["jpg"@, "jpeg"@, "png"@, "gif"@, "bmp"@, "svg"@, "ico"@][6] == "ico"@);
    }
    assert(seq!["mp3"@, "wav"@, "flac"@, "m4a"@, "aac"@, "ogg"@].contains(e) <==> (e == "mp3"@ || e == "wav"@ || e == "flac"@ || e == "m4a"@ || e == "aac"@ || e == "ogg"@)) by {
        assert(seq!["mp3"@, "wav"@, "flac"@, "m4a"@, "aac"@, "ogg"@][0] == "mp3"@);
        assert(seq!["mp3"@, "wav"@, "flac"@, "m4a"@, "aac"@, "ogg"@][1] == "wav"@);
        assert(seq!["mp3"@, "wav"@, "flac"@, "m4a"@, "aac"@, "ogg"@][2] == "flac"@);
        assert(seq!["mp3"@, "wav"@, "flac"@, "m4a"@, "aac"@, "ogg"@][3] == "m4a"@);
        assert(seq!["mp3"@, "wav"@, "flac"@, "m4a"@, "aac"@, "ogg"@][4] == "aac"@);
        assert(seq!["mp3"@, "wav"@, "flac"@, "m4a"@, "aac"@, "ogg"@][5] == "ogg"@);
    }
    assert(seq!["mp4"@, "avi"@, "mkv"@, "mov"@, "wmv"@, "flv"@].contains(e) <==> (e == "mp4"@ || e == "avi"@ || e == "mkv"@ || e == "mov"@ || e == "wmv"@ || e == "flv"@)) by {
        assert(seq!["mp4"@, "avi"@, "mkv"@, "mov"@, "wmv"@, "flv"@][0] == "mp4"@);
        assert(seq!["mp4"@, "avi"@, "mkv"@, "mov"@, "wmv"@, "flv"@][1] == "avi"@);
        assert(seq!["mp4"@, "avi"@, "mkv"@, "mov"@, "wmv"@, "flv"@][2] == "mkv"@);
        assert(seq!["mp4"@, "avi"@, "mkv"@, "mov"@, "wmv"@, "flv"@][3] == "mov"@);
        assert(seq!["mp4"@, "avi"@, "mkv"@, "mov"@, "wmv"@, "flv"@][4] == "wmv"@);
        assert(seq!["mp4"@, "avi"@, "mkv"@, "mov"@, "wmv"@, "flv"@][5] == "flv"@);
    }
    assert(seq!["zip"@, "rar"@, "7z"@, "tar"@, "gz"@, "bz2"@].contains(e) <==> (e == "zip"@ || e == "rar"@ || e == "7z"@ || e == "tar"@ || e == "gz"@ || e == "bz2"@)) by {
        assert(seq!["zip"@, "rar"@, "7z"@, "tar"@, "gz"@, "bz2"@][0] == "zip"@);
        assert(seq!["zip"@, "rar"@, "7z"@, "tar"@, "gz"@, "bz2"@][1] == "rar"@);
        assert(seq!["zip"@, "rar"@, "7z"@, "tar"@, "gz"@, "bz2"@][2] == "7z"@);
        assert(seq!["zip"@, "rar"@, "7z"@, "tar"@, "gz"@, "bz2"@][3] == "tar"@);
        assert(seq!["zip"@, "rar"@, "7z"@, "tar"@, "gz"@, "bz2"@][4] == "gz"@);
        assert(seq!["zip"@, "rar"@, "7z"@, "tar"@, "gz"@, "bz2"@][5] == "bz2"@);
    }
    assert(seq!["rs"@].contains(e) <==> (e == "rs"@)) by {
        assert(seq!["rs"@][0] == "rs"@);
    }
    assert(seq!["py"@].contains(e) <==> (e == "py"@)) by {
        assert(seq!["py"@][0] == "py"@);
    }
    assert(seq!["js"@, "ts"@, "jsx"@, "tsx"@].contains(e) <==> (e == "js"@ || e == "ts"@ || e == "jsx"@ || e == "tsx"@)) by {
        assert(seq!["js"@, "ts"@, "jsx"@, "tsx"@][0] == "js"@);
        assert(seq!["js"@, "ts"@, "jsx"@, "tsx"@][1] == "ts"@);
        assert(seq!["js"@, "ts"@, "jsx"@, "tsx"@][2] == "jsx"@);
        assert(seq!["js"@, "ts"@, "jsx"@, "tsx"@][3] == "tsx"@);
    }
    assert(seq!["java"@, "class"@, "jar"@].contains(e) <==> (e == "java"@ || e == "class"@ || e == "jar"@)) by {
        assert(seq!["java"@, "class"@, "jar"@][0] == "java"@);
        assert(seq!["java"@, "class"@, "jar"@][1] == "class"@);
        assert(seq!["java"@, "class"@, "jar"@][2] == "jar"@);
    }
    assert(seq!["cpp"@, "c"@, "h"@, "hpp"@].contains(e) <==> (e == "cpp"@ || e == "c"@ || e == "h"@ || e == "hpp"@)) by {
        assert(seq!["cpp"@, "c"@, "h"@, "hpp"@][0] == "cpp"@);
        assert(seq!["cpp"@, "c"@, "h"@, "hpp"@][1] == "c"@);
        assert(seq!["cpp"@, "c"@, "h"@, "hpp"@][2] == "h"@);
        assert(seq!["cpp"@, "c"@, "h"@, "hpp"@][3] == "hpp"@);
    }
    assert(seq!["go"@].contains(e) <==> (e == "go"@)) by {
        assert(seq!["go"@][0] == "go"@);
    }
    assert(seq!["php"@].contains(e) <==> (e == "php"@)) by {
        assert(seq!["php"@][0] == "php"@);
    }
    assert(seq!["rb"@].contains(e) <==> (e == "rb"@)) by {
        assert(seq!["rb"@][0] == "rb"@);
    }
    assert(seq!["cs"@].contains(e) <==> (e == "cs"@)) by {
        assert(seq!["cs"@][0] == "cs"@);
    }
    assert(seq!["html"@, "htm"@].contains(e) <==> (e == "html"@ || e == "htm"@)) by {
        assert(seq!["html"@, "htm"@][0] == "html"@);
        assert(seq!["html"@, "htm"@][1] == "htm"@);
    }
    assert(seq!["css"@, "scss"@, "sass"@].contains(e) <==> (e == "css"@ || e == "scss"@ || e == "sass"@)) by {
        assert(seq!["css"@, "scss"@, "sass"@][0] == "css"@);
        assert(seq!["css"@, "scss"@, "sass"@][1] == "scss"@);
        assert(seq!["css"@, "scss"@, "sass"@][2] == "sass"@);
    }
    assert(seq!["json"@, "xml"@, "yaml"@, "yml"@, "toml"@].contains(e) <==> (e == "json"@ || e == "xml"@ || e == "yaml"@ || e == "yml"@ || e == "toml"@)) by {
        assert(seq!["json"@, "xml"@, "yaml"@, "yml"@, "toml"@][0] == "json"@);
        assert(seq!["json"@, "xml"@, "yaml"@, "yml"@, "toml"@][1] == "xml"@);
        assert(seq!["json"@, "xml"@, "yaml"@, "yml"@, "toml"@][2] == "yaml"@);
        assert(seq!["json"@, "xml"@, "yaml"@, "yml"@, "toml"@][3] == "yml"@);
        assert(seq!["json"@, "xml"@, "yaml"@, "yml"@, "toml"@][4] == "toml"@);
    }
}

} // verus!
