use vstd::prelude::*;

use crate::text::{char_matches_folded, eq_ignore_case, matches_folded, UnknownVariant};

verus! {

/// The orientation of an image.
///
/// - `Thumbnail`: square aspect ratio (the default)
/// - `Landscape`: width greater than height
/// - `Portrait`: height greater than width
#[derive(Debug, Clone, Copy, PartialEq, Eq, Structural, PartialOrd, Ord, Hash)]
pub enum Orientation {
    Thumbnail,
    Landscape,
    Portrait,
}

/// The orientation that lenient text parsing gives for `s`: the tokens
/// `landscape` and `portrait` in any ASCII case, and `Thumbnail` for all else.
pub open spec fn orientation_lenient(s: Seq<char>) -> Orientation {
    if matches_folded(s, "landscape"@) {
        Orientation::Landscape
    } else if matches_folded(s, "portrait"@) {
        Orientation::Portrait
    } else {
        Orientation::Thumbnail
    }
}

/// The orientation that strict parsing gives for `s`, if `s` is one of the
/// three tokens in any ASCII case.
pub open spec fn orientation_strict(s: Seq<char>) -> Option<Orientation> {
    if matches_folded(s, "thumbnail"@) {
        Some(Orientation::Thumbnail)
    } else if matches_folded(s, "landscape"@) {
        Some(Orientation::Landscape)
    } else if matches_folded(s, "portrait"@) {
        Some(Orientation::Portrait)
    } else {
        None
    }
}

impl Orientation {
    /// The upper-case token that names the orientation in text and storage.
    pub open spec fn token(self) -> Seq<char> {
        match self {
            Orientation::Thumbnail => "THUMBNAIL"@,
            Orientation::Landscape => "LANDSCAPE"@,
            Orientation::Portrait => "PORTRAIT"@,
        }
    }

    /// The upper-case token of the orientation: `THUMBNAIL`, `LANDSCAPE` or
    /// `PORTRAIT`.
    pub fn to_display_text(&self) -> (r: &'static str)
        ensures
            r@ == self.token(),
    {
        match self {
            Orientation::Thumbnail => "THUMBNAIL",
            Orientation::Landscape => "LANDSCAPE",
            Orientation::Portrait => "PORTRAIT",
        }
    }

    /// Reads an orientation from loosely sourced text; never fails, and any
    /// text that is not `landscape` or `portrait` (in any case) gives
    /// `Thumbnail`.
    pub fn parse_lenient(s: &str) -> (r: Orientation)
        ensures
            r == orientation_lenient(s@),
    {
        if eq_ignore_case(s, "landscape") {
            Orientation::Landscape
        } else if eq_ignore_case(s, "portrait") {
            Orientation::Portrait
        } else {
            Orientation::Thumbnail
        }
    }

    /// Reads an orientation from text that must be one of the three tokens,
    /// in any case; any other text is an unknown variant.
    pub fn parse_strict(s: &str) -> (r: Result<Orientation, UnknownVariant>)
        ensures
            orientation_strict(s@) matches Some(o) ==> r == Ok::<Orientation, UnknownVariant>(o),
            orientation_strict(s@) is None ==> (r matches Err(e) && e.variant@ == s@),
    {
        if eq_ignore_case(s, "thumbnail") {
            Ok(Orientation::Thumbnail)
        } else if eq_ignore_case(s, "landscape") {
            Ok(Orientation::Landscape)
        } else if eq_ignore_case(s, "portrait") {
            Ok(Orientation::Portrait)
        } else {
            Err(UnknownVariant::new(s))
        }
    }
}

impl Default for Orientation {
    fn default() -> (r: Orientation)
        ensures
            r == Orientation::Thumbnail,
    {
        Orientation::Thumbnail
    }
}

impl<'a> From<&'a str> for Orientation {
    fn from(s: &'a str) -> (r: Orientation)
        ensures
            r == orientation_lenient(s@),
    {
        Orientation::parse_lenient(s)
    }
}

impl<'a> vstd::std_specs::convert::FromSpecImpl<&'a str> for Orientation {
    open spec fn obeys_from_spec() -> bool {
        true
    }

    open spec fn from_spec(s: &'a str) -> Orientation {
        orientation_lenient(s@)
    }
}

impl From<String> for Orientation {
    fn from(s: String) -> (r: Orientation)
        ensures
            r == orientation_lenient(s@),
    {
        Orientation::parse_lenient(s.as_str())
    }
}

impl vstd::std_specs::convert::FromSpecImpl<String> for Orientation {
    open spec fn obeys_from_spec() -> bool {
        true
    }

    open spec fn from_spec(s: String) -> Orientation {
        orientation_lenient(s@)
    }
}

impl<'a> From<&'a String> for Orientation {
    fn from(s: &'a String) -> (r: Orientation)
        ensures
            r == orientation_lenient(s@),
    {
        Orientation::parse_lenient(s.as_str())
    }
}

impl<'a> vstd::std_specs::convert::FromSpecImpl<&'a String> for Orientation {
    open spec fn obeys_from_spec() -> bool {
        true
    }

    open spec fn from_spec(s: &'a String) -> Orientation {
        orientation_lenient(s@)
    }
}

impl From<Option<String>> for Orientation {
    fn from(s: Option<String>) -> (r: Orientation)
        ensures
            r == (match s {
                Some(t) => orientation_lenient(t@),
                None => Orientation::Thumbnail,
            }),
    {
        match s {
            Some(t) => Orientation::parse_lenient(t.as_str()),
            None => Orientation::Thumbnail,
        }
    }
}

impl vstd::std_specs::convert::FromSpecImpl<Option<String>> for Orientation {
    open spec fn obeys_from_spec() -> bool {
        true
    }

    open spec fn from_spec(s: Option<String>) -> Orientation {
        match s {
            Some(t) => orientation_lenient(t@),
            None => Orientation::Thumbnail,
        }
    }
}

/// Reading the display token of an orientation strictly gives that
/// orientation back.
pub proof fn lemma_orientation_token_round_trip(o: Orientation)
    ensures
        orientation_strict(o.token()) == Some(o),
{
    reveal_strlit("THUMBNAIL");
    reveal_strlit("LANDSCAPE");
    reveal_strlit("PORTRAIT");
    reveal_strlit("thumbnail");
    reveal_strlit("landscape");
    reveal_strlit("portrait");
    match o {
        Orientation::Thumbnail => {
            assert(matches_folded("THUMBNAIL"@, "thumbnail"@));
        },
        Orientation::Landscape => {
            assert(!char_matches_folded("LANDSCAPE"@[0], "thumbnail"@[0]));
            assert(matches_folded("LANDSCAPE"@, "landscape"@));
        },
        Orientation::Portrait => {
            assert(!matches_folded("PORTRAIT"@, "thumbnail"@));
            assert(!matches_folded("PORTRAIT"@, "landscape"@));
            assert(matches_folded("PORTRAIT"@, "portrait"@));
        },
    }
}

} // verus!
