//! Static files: the content type that a file is served with.
use vstd::prelude::*;
use vstd::string::*;

use crate::text::{
    chars_of, lemma_split_from_len, lemma_split_last_piece, same_text, split_chars, split_on,
    views_of,
};

verus! {

/// The content type for a file extension.
pub open spec fn content_type_for_extension(ext: Seq<char>) -> Seq<char> {
    if ext == "css"@ {
        "text/css"@
    } else if ext == "js"@ {
        "text/javascript"@
    } else if ext == "png"@ {
        "image/png"@
    } else if ext == "jpg"@ {
        "image/jpeg"@
    } else if ext == "gif"@ {
        "image/gif"@
    } else if ext == "svg"@ {
        "image/svg+xml"@
    } else if ext == "html"@ {
        "text/html"@
    } else {
        "text/plain"@
    }
}

/// The extension of `path`: the text after its last `.`, or the whole path
/// when it has none.
pub open spec fn extension_of(path: Seq<char>) -> Seq<char> {
    split_on(path, '.').last()
}

/// The content type that a static file at `path` is served with.
pub open spec fn content_type_for_path(path: Seq<char>) -> Seq<char> {
    content_type_for_extension(extension_of(path))
}

/// The extension of `path` (see `extension_of`).
pub fn file_extension(path: &str) -> (res: Vec<char>)
    ensures
        res@ == extension_of(path@),
{
    let chars = chars_of(path);
    let pieces = split_chars(&chars, '.');
    proof {
        lemma_split_from_len(path@, '.', Seq::empty(), Seq::empty());
        assert(views_of(pieces@).len() == pieces@.len());
    }
    let last = pieces.len() - 1;
    let ext = pieces[last].clone();
    assert(views_of(pieces@)[last as int] == pieces@[last as int]@);
    ext
}

/// The content type that the static file at `path` is served with.
pub fn content_type(path: &str) -> (res: String)
    ensures
        res@ == content_type_for_path(path@),
{
    let ext = file_extension(path);
    if same_text(&ext, "css") {
        String::from_str("text/css")
    } else if same_text(&ext, "js") {
        String::from_str("text/javascript")
    } else if same_text(&ext, "png") {
        String::from_str("image/png")
    } else if same_text(&ext, "jpg") {
        String::from_str("image/jpeg")
    } else if same_text(&ext, "gif") {
        String::from_str("image/gif")
    } else if same_text(&ext, "svg") {
        String::from_str("image/svg+xml")
    } else if same_text(&ext, "html") {
        String::from_str("text/html")
    } else {
        String::from_str("text/plain")
    }
}

/// A static file is served by the text after the last `.` of its path: a path
/// that ends in `.ext`, with no `.` in `ext`, gets the content type for `ext`.
pub proof fn law_type_follows_last_extension(stem: Seq<char>, ext: Seq<char>)
    requires
        !ext.contains('.'),
    ensures
        content_type_for_path(stem + seq!['.'] + ext) == content_type_for_extension(ext),
{
    lemma_split_last_piece(stem, ext, '.', Seq::empty(), Seq::empty());
}

} // verus!
