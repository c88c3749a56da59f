//! Which embedded user-interface file answers a request path.

use vstd::prelude::*;
use crate::text::{
    trim_start_char, strip_prefix_all, trim_start_char_exec, strip_prefix_all_exec, str_chars,
    chars_to_string, chars_eq, copy_range,
};

verus! {

pub open spec fn static_dir() -> Seq<char> {
    seq!['s', 't', 'a', 't', 'i', 'c', '/']
}

pub open spec fn index_html() -> Seq<char> {
    seq!['i', 'n', 'd', 'e', 'x', '.', 'h', 't', 'm', 'l']
}

/// The asset path for a request path: leading `/`s removed; if it then starts with
/// `static/`, every leading `static/` removed; an empty path means `index.html`.
pub open spec fn asset_path(uri_path: Seq<char>) -> Seq<char> {
    let p = trim_start_char(uri_path, '/');
    let q = if p.len() >= 7 && p.take(7) == static_dir() {
        strip_prefix_all(p, static_dir())
    } else {
        p
    };
    if q.len() == 0 || q == index_html() {
        index_html()
    } else {
        q
    }
}

/// The asset path for a request path (see `asset_path`).
pub fn normalize_asset_path(uri_path: &str) -> (r: String)
    ensures
        r@ == asset_path(uri_path@),
{
    let p = trim_start_char_exec(&str_chars(uri_path), '/');
    let dir = vec!['s', 't', 'a', 't', 'i', 'c', '/'];
    assert(dir@ =~= static_dir());
    let starts = if p.len() >= 7 {
        let head = copy_range(&p, 0, 7);
        assert(head@ =~= p@.take(7));
        chars_eq(&head, &dir)
    } else {
        false
    };
    let q = if starts { strip_prefix_all_exec(&p, &dir) } else { p };
    let index = vec!['i', 'n', 'd', 'e', 'x', '.', 'h', 't', 'm', 'l'];
    assert(index@ =~= index_html());
    if q.len() == 0 || chars_eq(&q, &index) {
        chars_to_string(&index)
    } else {
        chars_to_string(&q)
    }
}

/// The MIME type `mime_guess` gives for a path, by its extension.
pub uninterp spec fn guessed_mime(path: Seq<char>) -> Seq<char>;

/// `mime_guess::from_path(path).first_or_octet_stream()`, as text. Which type a
/// path gets is left to the name `guessed_mime` (a fixed table in `mime_guess`).
#[verifier::external_body]
fn mime_for_path(path: &str) -> (r: String)
    ensures
        r@ == guessed_mime(path@),
{
    let mime = mime_guess::from_path(path).first_or_octet_stream();
    let text: &str = mime.as_ref();
    text.to_string()
}

/// How a request for an embedded file is answered.
pub enum StaticReply {
    /// The asset, with the MIME type of its path.
    Asset { content_type: String, body: Vec<u8> },
    /// The application's `index.html`, as HTML, for a client-side route.
    SpaIndex { body: Vec<u8> },
    /// `404 Not Found`.
    NotFound,
}

pub open spec fn has_dot(path: Seq<char>) -> bool {
    path.contains('.')
}

/// Answers a request for `uri_path`, given the embedded file at its asset path and
/// the embedded `index.html`: the file when there is one, typed by its path;
/// otherwise `index.html` when the path has no `.` and it exists; otherwise 404.
pub fn static_handler(uri_path: &str, asset: Option<Vec<u8>>, index: Option<Vec<u8>>) -> (r: StaticReply)
    ensures
        asset is Some ==> (r matches StaticReply::Asset { content_type, body: b }
            && content_type@ == guessed_mime(asset_path(uri_path@)) && Some(b) == asset),
        asset is None && !has_dot(asset_path(uri_path@)) && index is Some ==> (
        r matches StaticReply::SpaIndex { body } && Some(body) == index),
        asset is None && (has_dot(asset_path(uri_path@)) || index is None) ==> r is NotFound,
{
    let path = normalize_asset_path(uri_path);
    match asset {
        Some(body) => {
            let content_type = mime_for_path(path.as_str());
            StaticReply::Asset { content_type, body }
        },
        None => {
            let chars = str_chars(path.as_str());
            let mut i: usize = 0;
            let mut dot = false;
            while i < chars.len()
                invariant
                    i <= chars@.len(),
                    chars@ == asset_path(uri_path@),
                    dot <==> exists|k: int| 0 <= k < i && chars@[k] == '.',
                decreases chars@.len() - i,
            {
                if chars[i] == '.' {
                    dot = true;
                }
                i = i + 1;
            }
            if !dot {
                match index {
                    Some(body) => {
                        return StaticReply::SpaIndex { body };
                    },
                    None => {},
                }
            }
            StaticReply::NotFound
        },
    }
}

} // verus!
