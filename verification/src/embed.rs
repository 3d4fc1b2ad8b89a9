//! Path resolution for the embedded static-file server.
//!
//! The bridge ships a bundled web client; requests under its mount
//! point are answered from an embedded store. This module decides which
//! stored entry a request path serves — the path itself, or the
//! directory's `index.html` or `index.htm` — and the Content-Type header
//! the answer carries. The surrounding runtime performs the store
//! lookups and hands the results in as plain booleans.

use vstd::prelude::*;

verus! {

/// Joins a directory path and a file name with `/`, except that an
/// empty path yields the file name alone.
pub fn append_filename(path: &str, filename: &str) -> (r: String)
    ensures
        r@ == if path@.len() == 0 {
            filename@
        } else {
            path@ + "/"@ + filename@
        },
{
    if path.unicode_len() == 0 {
        String::from_str(filename)
    } else {
        let mut r = String::from_str(path);
        r.append("/");
        r.append(filename);
        r
    }
}

/// Which candidate of an embedded lookup is served.
#[derive(Clone, Copy, PartialEq, Eq, Structural, Debug)]
pub enum EmbedChoice {
    /// The request path itself names a stored entry.
    Direct,
    /// The directory's `index.html` is served.
    IndexHtml,
    /// The directory's `index.htm` is served.
    IndexHtm,
}

/// The media type guessed for a file name. The guess is a pure lookup
/// of the name's extension, so it is a function of the name alone; this
/// names its result without restating the table.
pub uninterp spec fn mime_of(name: Seq<char>) -> Seq<char>;

/// Relies on `mime_guess::from_path` and
/// `MimeGuess::first_or_octet_stream`: the guess reads only the name's
/// extension in a fixed case-insensitive table — no disk access — and an
/// unknown or missing extension yields `application/octet-stream`.
#[verifier::external_body]
fn guess_mime(name: &str) -> (r: String)
    ensures
        r@ == mime_of(name@),
{
    mime_guess::from_path(name).first_or_octet_stream().to_string()
}

/// The file name whose extension decides the served content type: the
/// request path for a direct hit; both index fallbacks report
/// `index.html`.
pub open spec fn mime_name_chars(tail: Seq<char>, choice: EmbedChoice) -> Seq<char> {
    if choice is Direct {
        tail
    } else {
        "index.html"@
    }
}

/// The lookup priority: the request path itself, then the directory's
/// `index.html`, then its `index.htm`; a miss on all three is not found.
pub open spec fn embed_choice_spec(
    has_direct: bool,
    has_index_html: bool,
    has_index_htm: bool,
) -> Option<EmbedChoice> {
    if has_direct {
        Some(EmbedChoice::Direct)
    } else if has_index_html {
        Some(EmbedChoice::IndexHtml)
    } else if has_index_htm {
        Some(EmbedChoice::IndexHtm)
    } else {
        None
    }
}

/// What one request against the embedded store serves: the chosen
/// candidate and the Content-Type header value of the answer.
pub struct EmbedPlan {
    pub choice: EmbedChoice,
    pub content_type: String,
}

/// Decides which stored entry a request path serves, given which of the
/// three candidates the store holds: the path itself, the directory's
/// `index.html` (as [`append_filename`] joins it), or its `index.htm`.
/// Returns the choice and the Content-Type of the answer, or `None`
/// when all three miss.
pub fn resolve_embed(
    tail: &str,
    has_direct: bool,
    has_index_html: bool,
    has_index_htm: bool,
) -> (r: Option<EmbedPlan>)
    ensures
        r is Some <==> embed_choice_spec(has_direct, has_index_html, has_index_htm) is Some,
        r matches Some(p) ==> {
            &&& Some(p.choice) == embed_choice_spec(has_direct, has_index_html, has_index_htm)
            &&& p.content_type@ == mime_of(mime_name_chars(tail@, p.choice))
        },
{
    if has_direct {
        let content_type = guess_mime(tail);
        Some(EmbedPlan { choice: EmbedChoice::Direct, content_type })
    } else if has_index_html {
        let content_type = guess_mime("index.html");
        Some(EmbedPlan { choice: EmbedChoice::IndexHtml, content_type })
    } else if has_index_htm {
        let content_type = guess_mime("index.html");
        Some(EmbedPlan { choice: EmbedChoice::IndexHtm, content_type })
    } else {
        None
    }
}

} // verus!
