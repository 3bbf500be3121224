use vstd::prelude::*;

use crate::text::{char_matches_folded, eq_ignore_case, matches_folded, UnknownVariant};
use core::cmp::Ordering;
use vstd::std_specs::cmp::PartialOrdSpec;

verus! {

/// The size tier of an image, from smallest to largest:
/// `XXSM`, `XSM`, `SM`, `MD`, `LG`, `XLG`, `XXLG`.
///
/// Scales compare by that order.
#[derive(Debug, Clone, Copy, PartialEq, Eq, Structural, Ord, Hash)]
pub enum Scale {
    XXSM,
    XSM,
    SM,
    MD,
    LG,
    XLG,
    XXLG,
}

/// The scale that strict parsing gives for `s`, if `s` is one of the seven
/// tokens in any ASCII case.
pub open spec fn scale_strict(s: Seq<char>) -> Option<Scale> {
    if matches_folded(s, "xxsm"@) {
        Some(Scale::XXSM)
    } else if matches_folded(s, "xsm"@) {
        Some(Scale::XSM)
    } else if matches_folded(s, "sm"@) {
        Some(Scale::SM)
    } else if matches_folded(s, "md"@) {
        Some(Scale::MD)
    } else if matches_folded(s, "lg"@) {
        Some(Scale::LG)
    } else if matches_folded(s, "xlg"@) {
        Some(Scale::XLG)
    } else if matches_folded(s, "xxlg"@) {
        Some(Scale::XXLG)
    } else {
        None
    }
}

/// The scale that lenient text parsing gives for `s`: the one its token
/// names, and `XXSM` for text that names none.
pub open spec fn scale_lenient(s: Seq<char>) -> Scale {
    match scale_strict(s) {
        Some(sc) => sc,
        None => Scale::XXSM,
    }
}

impl Scale {
    /// The position of the scale in the order, `XXSM` at 0 and `XXLG` at 6.
    pub open spec fn rank(self) -> nat {
        match self {
            Scale::XXSM => 0,
            Scale::XSM => 1,
            Scale::SM => 2,
            Scale::MD => 3,
            Scale::LG => 4,
            Scale::XLG => 5,
            Scale::XXLG => 6,
        }
    }

    /// The upper-case token that names the scale in text and storage.
    pub open spec fn token(self) -> Seq<char> {
        match self {
            Scale::XXSM => "XXSM"@,
            Scale::XSM => "XSM"@,
            Scale::SM => "SM"@,
            Scale::MD => "MD"@,
            Scale::LG => "LG"@,
            Scale::XLG => "XLG"@,
            Scale::XXLG => "XXLG"@,
        }
    }

    /// The position of the scale in the order, `XXSM` at 0 and `XXLG` at 6.
    pub fn position(&self) -> (r: u8)
        ensures
            r == self.rank(),
    {
        match self {
            Scale::XXSM => 0,
            Scale::XSM => 1,
            Scale::SM => 2,
            Scale::MD => 3,
            Scale::LG => 4,
            Scale::XLG => 5,
            Scale::XXLG => 6,
        }
    }

    /// The upper-case token of the scale, `XXSM` through `XXLG`.
    pub fn to_display_text(&self) -> (r: &'static str)
        ensures
            r@ == self.token(),
    {
        match self {
            Scale::XXSM => "XXSM",
            Scale::XSM => "XSM",
            Scale::SM => "SM",
            Scale::MD => "MD",
            Scale::LG => "LG",
            Scale::XLG => "XLG",
            Scale::XXLG => "XXLG",
        }
    }

    /// Reads a scale from text that must be one of the seven tokens, in any
    /// case; any other text is an unknown variant.
    pub fn parse_strict(s: &str) -> (r: Result<Scale, UnknownVariant>)
        ensures
            scale_strict(s@) matches Some(sc) ==> r == Ok::<Scale, UnknownVariant>(sc),
            scale_strict(s@) is None ==> (r matches Err(e) && e.variant@ == s@),
    {
        if eq_ignore_case(s, "xxsm") {
            Ok(Scale::XXSM)
        } else if eq_ignore_case(s, "xsm") {
            Ok(Scale::XSM)
        } else if eq_ignore_case(s, "sm") {
            Ok(Scale::SM)
        } else if eq_ignore_case(s, "md") {
            Ok(Scale::MD)
        } else if eq_ignore_case(s, "lg") {
            Ok(Scale::LG)
        } else if eq_ignore_case(s, "xlg") {
            Ok(Scale::XLG)
        } else if eq_ignore_case(s, "xxlg") {
            Ok(Scale::XXLG)
        } else {
            Err(UnknownVariant::new(s))
        }
    }

    /// Reads a scale from loosely sourced text; never fails, and text that
    /// names no scale gives `XXSM`.
    pub fn parse_lenient(s: &str) -> (r: Scale)
        ensures
            r == scale_lenient(s@),
    {
        match Scale::parse_strict(s) {
            Ok(sc) => sc,
            Err(_) => Scale::XXSM,
        }
    }
}

/// The ordering of two scales by their positions.
pub open spec fn compare_ranks(a: Scale, b: Scale) -> Ordering {
    if a.rank() < b.rank() {
        Ordering::Less
    } else if a.rank() == b.rank() {
        Ordering::Equal
    } else {
        Ordering::Greater
    }
}

impl PartialOrd for Scale {
    fn partial_cmp(&self, other: &Scale) -> (r: Option<Ordering>) {
        let a = self.position();
        let b = other.position();
        if a < b {
            Some(Ordering::Less)
        } else if a == b {
            Some(Ordering::Equal)
        } else {
            Some(Ordering::Greater)
        }
    }
}

impl vstd::std_specs::cmp::PartialOrdSpecImpl for Scale {
    open spec fn obeys_partial_cmp_spec() -> bool {
        true
    }

    open spec fn partial_cmp_spec(&self, other: &Scale) -> Option<Ordering> {
        Some(compare_ranks(*self, *other))
    }
}

impl Default for Scale {
    fn default() -> (r: Scale)
        ensures
            r == Scale::XXSM,
    {
        Scale::XXSM
    }
}

impl<'a> From<&'a str> for Scale {
    fn from(s: &'a str) -> (r: Scale)
        ensures
            r == scale_lenient(s@),
    {
        Scale::parse_lenient(s)
    }
}

impl<'a> vstd::std_specs::convert::FromSpecImpl<&'a str> for Scale {
    open spec fn obeys_from_spec() -> bool {
        true
    }

    open spec fn from_spec(s: &'a str) -> Scale {
        scale_lenient(s@)
    }
}

impl From<String> for Scale {
    fn from(s: String) -> (r: Scale)
        ensures
            r == scale_lenient(s@),
    {
        Scale::parse_lenient(s.as_str())
    }
}

impl vstd::std_specs::convert::FromSpecImpl<String> for Scale {
    open spec fn obeys_from_spec() -> bool {
        true
    }

    open spec fn from_spec(s: String) -> Scale {
        scale_lenient(s@)
    }
}

impl<'a> From<&'a String> for Scale {
    fn from(s: &'a String) -> (r: Scale)
        ensures
            r == scale_lenient(s@),
    {
        Scale::parse_lenient(s.as_str())
    }
}

impl<'a> vstd::std_specs::convert::FromSpecImpl<&'a String> for Scale {
    open spec fn obeys_from_spec() -> bool {
        true
    }

    open spec fn from_spec(s: &'a String) -> Scale {
        scale_lenient(s@)
    }
}

impl From<Option<String>> for Scale {
    fn from(s: Option<String>) -> (r: Scale)
        ensures
            r == (match s {
                Some(t) => scale_lenient(t@),
                None => Scale::XXSM,
            }),
    {
        match s {
            Some(t) => Scale::parse_lenient(t.as_str()),
            None => Scale::XXSM,
        }
    }
}

impl vstd::std_specs::convert::FromSpecImpl<Option<String>> for Scale {
    open spec fn obeys_from_spec() -> bool {
        true
    }

    open spec fn from_spec(s: Option<String>) -> Scale {
        match s {
            Some(t) => scale_lenient(t@),
            None => Scale::XXSM,
        }
    }
}

/// Reading the display token of a scale strictly gives that scale back.
pub proof fn lemma_scale_token_round_trip(sc: Scale)
    ensures
        scale_strict(sc.token()) == Some(sc),
{
    reveal_strlit("XXSM");
    reveal_strlit("XSM");
    reveal_strlit("SM");
    reveal_strlit("MD");
    reveal_strlit("LG");
    reveal_strlit("XLG");
    reveal_strlit("XXLG");
    reveal_strlit("xxsm");
    reveal_strlit("xsm");
    reveal_strlit("sm");
    reveal_strlit("md");
    reveal_strlit("lg");
    reveal_strlit("xlg");
    reveal_strlit("xxlg");
    match sc {
        Scale::XXSM => {
            assert(matches_folded("XXSM"@, "xxsm"@));
        },
        Scale::XSM => {
            assert(matches_folded("XSM"@, "xsm"@));
        },
        Scale::SM => {
            assert(matches_folded("SM"@, "sm"@));
        },
        Scale::MD => {
            assert(!char_matches_folded("MD"@[0], "sm"@[0]));
            assert(matches_folded("MD"@, "md"@));
        },
        Scale::LG => {
            assert(!char_matches_folded("LG"@[0], "sm"@[0]));
            assert(!char_matches_folded("LG"@[0], "md"@[0]));
            assert(matches_folded("LG"@, "lg"@));
        },
        Scale::XLG => {
            assert(!char_matches_folded("XLG"@[1], "xsm"@[1]));
            assert(matches_folded("XLG"@, "xlg"@));
        },
        Scale::XXLG => {
            assert(!char_matches_folded("XXLG"@[2], "xxsm"@[2]));
            assert(matches_folded("XXLG"@, "xxlg"@));
        },
    }
}

/// Scales are totally ordered from `XXSM` to `XXLG`: each tier is below the
/// next, `<` is transitive, and two scales compare equal only when they are
/// the same scale.
pub proof fn lemma_scale_order(a: Scale, b: Scale, c: Scale)
    ensures
        Scale::XXSM.partial_cmp_spec(&Scale::XSM) == Some(Ordering::Less),
        Scale::XSM.partial_cmp_spec(&Scale::SM) == Some(Ordering::Less),
        Scale::SM.partial_cmp_spec(&Scale::MD) == Some(Ordering::Less),
        Scale::MD.partial_cmp_spec(&Scale::LG) == Some(Ordering::Less),
        Scale::LG.partial_cmp_spec(&Scale::XLG) == Some(Ordering::Less),
        Scale::XLG.partial_cmp_spec(&Scale::XXLG) == Some(Ordering::Less),
        (a.partial_cmp_spec(&b) == Some(Ordering::Less)) == (a.rank() < b.rank()),
        (a.partial_cmp_spec(&b) == Some(Ordering::Equal)) == (a == b),
        (a.partial_cmp_spec(&b) == Some(Ordering::Less)) == (b.partial_cmp_spec(&a) == Some(
            Ordering::Greater,
        )),
        a.partial_cmp_spec(&b) == Some(Ordering::Less) && b.partial_cmp_spec(&c) == Some(
            Ordering::Less,
        ) ==> a.partial_cmp_spec(&c) == Some(Ordering::Less),
{
}

} // verus!
