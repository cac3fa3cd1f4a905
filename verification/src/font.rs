//! The font resource: an owned, loaded bitmap glyph set with a lifetime
//! independent of any matrix.
//!
//! Loading happens at the boundary to the native glyph-set loader. This
//! module holds the two decisions the layer makes around that call: whether
//! the file path can be represented as a native string at all, and how the
//! loader's outcome maps onto a font value or a failure. The font retains the
//! glyph metrics the loader reported, which is what text layout needs.

use vstd::prelude::*;

verus! {

/// The error kind that made a font creation fail.
#[derive(Clone, Copy, Debug, PartialEq, Eq, Structural)]
pub enum NewFontErrorKind {
    /// The path given was invalid.
    BadPath,
    /// The font could not be loaded using the given path.
    LoadFailed,
}

/// The error type for [`LedFont::new`], returned upon failure to create a new
/// [`LedFont`].
#[derive(Clone, Copy, Debug, PartialEq, Eq, Structural)]
pub struct NewFontError {
    pub kind: NewFontErrorKind,
}

/// The mathematical model of a loaded font: the horizontal advance of one
/// glyph and the glyph height, both in pixels and both positive.
#[verifier::ext_equal]
pub struct FontView {
    pub advance: int,
    pub height: int,
}

impl FontView {
    /// A loaded glyph set always has glyphs of positive extent.
    pub open spec fn wf(self) -> bool {
        1 <= self.advance && 1 <= self.height
    }
}

/// A bitmap glyph set that text drawing uses. The resource is created from
/// what the native loader reported and is released exactly once, by
/// ownership, independent of any matrix.
#[derive(Debug)]
pub struct LedFont {
    advance: u16,
    height: u16,
}

impl View for LedFont {
    type V = FontView;

    closed spec fn view(&self) -> FontView {
        FontView { advance: self.advance as int, height: self.height as int }
    }
}

/// Checks that a file path survived the conversion to text that the native
/// loader needs; a path that did not yields the bad-path failure before any
/// native call is made.
pub fn check_path(path: Option<&str>) -> (r: Result<&str, NewFontError>)
    ensures
        path is Some ==> r == Ok::<&str, NewFontError>(path->0),
        path is None ==> r == Err::<&str, NewFontError>(NewFontError {
            kind: NewFontErrorKind::BadPath,
        }),
{
    match path {
        Some(p) => Ok(p),
        None => Err(NewFontError { kind: NewFontErrorKind::BadPath }),
    }
}

impl LedFont {
    /// Attempts to construct a new LED font from the outcome of the native
    /// glyph-set loader: the glyph advance and height it reported, or `None`
    /// when it rejected the file (missing or malformed). A loader outcome
    /// without positive glyph extents is a failed load.
    pub fn new(loaded: Option<(u16, u16)>) -> (r: Result<LedFont, NewFontError>)
        ensures
            ({
                match loaded {
                    Some((advance, height)) => {
                        if 1 <= advance && 1 <= height {
                            &&& r is Ok
                            &&& r->Ok_0@ == (FontView {
                                advance: advance as int,
                                height: height as int,
                            })
                            &&& r->Ok_0@.wf()
                        } else {
                            r == Err::<LedFont, NewFontError>(NewFontError {
                                kind: NewFontErrorKind::LoadFailed,
                            })
                        }
                    },
                    None => r == Err::<LedFont, NewFontError>(NewFontError {
                        kind: NewFontErrorKind::LoadFailed,
                    }),
                }
            }),
    {
        match loaded {
            Some((advance, height)) => {
                if advance >= 1 && height >= 1 {
                    Ok(LedFont { advance, height })
                } else {
                    Err(NewFontError { kind: NewFontErrorKind::LoadFailed })
                }
            },
            None => Err(NewFontError { kind: NewFontErrorKind::LoadFailed }),
        }
    }

    /// The horizontal advance of one glyph, in pixels.
    pub fn advance(&self) -> (r: u16)
        ensures
            r == self@.advance,
    {
        self.advance
    }

    /// The glyph height, in pixels.
    pub fn height(&self) -> (r: u16)
        ensures
            r == self@.height,
    {
        self.height
    }
}

} // verus!
