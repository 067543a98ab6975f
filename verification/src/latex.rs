//! Text for LaTeX documents.

use vstd::prelude::*;

verus! {

/// What `texrender` makes of a text when it escapes it for LaTeX: the text with every
/// character that LaTeX reads as markup replaced by a command that prints it; or
/// nothing, where it fails on the text.
pub uninterp spec fn tex_escape(s: Seq<char>) -> Option<Seq<char>>;

/// Whether a text can be escaped for LaTeX.
pub open spec fn can_escape(s: Seq<char>) -> bool {
    tex_escape(s) is Some
}

/// A text as it can stand in a LaTeX document, where it can be escaped: see
/// [`tex_escape`].
pub open spec fn tex_escaped(s: Seq<char>) -> Seq<char> {
    match tex_escape(s) {
        Some(escaped) => escaped,
        None => Seq::empty(),
    }
}

/// Escapes a text for LaTeX.
///
/// Calls `texrender::tex_escape::write_escaped` with a byte buffer to write to, and
/// reads the buffer as text. What comes of it depends on the text alone, and is only
/// named, by [`tex_escape`]: whether there is a result, and which.
#[verifier::external_body]
fn write_escaped(s: &str) -> (r: Option<String>)
    ensures
        match r {
            Some(escaped) => tex_escape(s@) == Some(escaped@),
            None => tex_escape(s@) is None,
        },
{
    let mut out: Vec<u8> = Vec::new();
    texrender::tex_escape::write_escaped(&mut out, s).ok()?;
    String::from_utf8(out).ok()
}

/// Why a text could not be made part of a document.
#[derive(Clone, Copy, Debug, PartialEq, Eq, Structural)]
pub enum LatexError {
    /// The text could not be escaped.
    Escape,
}

/// The way text is escaped in LaTeX documents.
#[derive(Clone, Copy, Debug)]
pub struct Latex;

impl Latex {
    /// The text `s` as it can stand in a LaTeX document: see [`tex_escape`]. Fails
    /// where, and only where, the text cannot be escaped.
    pub fn escape(&self, s: &str) -> (r: Result<String, LatexError>)
        ensures
            match r {
                Ok(escaped) => tex_escape(s@) == Some(escaped@),
                Err(LatexError::Escape) => tex_escape(s@) is None,
            },
    {
        match write_escaped(s) {
            Some(escaped) => Ok(escaped),
            None => Err(LatexError::Escape),
        }
    }
}

/// A file that a document needs beside its source, such as a class file.
#[derive(Clone, Debug)]
pub struct Asset {
    pub data: Vec<u8>,
    pub filename: String,
}

} // verus!
