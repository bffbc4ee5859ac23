//! The strategy/option parser.
//!
//! A resize strategy is written as a compact token of exactly two segments
//! joined by `'_'`: a fitting mode (`fit`, `cover`, `exact`) and a resampling
//! filter (`nearest`, `triangle`, `catmullRom`, `gaussian`, `lanczos3`), both
//! case-sensitive. Any other shape is rejected with a [`ParseError`] naming
//! the invalid segment; no default is ever substituted.

use vstd::prelude::*;

use crate::errors::ParseError;

verus! {

/// A resampling kernel, arranged from fastest to slowest.
#[derive(Clone, Copy, Debug, PartialEq, Eq, Structural)]
pub enum Filter {
    /// Point sampling; cheapest, may alias.
    Nearest,
    /// Linear interpolation.
    Triangle,
    /// Cubic interpolation.
    CatmullRom,
    /// Gaussian resampling, blur-biased.
    Gaussian,
    /// Windowed sinc with window 3; sharpest, most expensive.
    Lanczos3,
}

/// An aspect-ratio policy for resize.
#[derive(Clone, Copy, Debug, PartialEq, Eq, Structural)]
pub enum FitMode {
    /// Preserve the aspect ratio and fit inside the target box.
    Fit,
    /// Preserve the aspect ratio, fill the target box, then center-crop.
    Cover,
    /// Ignore the aspect ratio; the target box is the exact output size.
    Exact,
}

/// A validated fitting mode and filter, as parsed from a strategy token.
#[derive(Clone, Copy, Debug, PartialEq, Eq, Structural)]
pub struct ResizeStrategy {
    /// The fitting mode.
    pub mode: FitMode,
    /// The resampling filter.
    pub filter: Filter,
}

/// The filter a segment names, if any.
pub open spec fn spec_filter(s: Seq<char>) -> Option<Filter> {
    if s == "nearest"@ {
        Some(Filter::Nearest)
    } else if s == "triangle"@ {
        Some(Filter::Triangle)
    } else if s == "catmullRom"@ {
        Some(Filter::CatmullRom)
    } else if s == "gaussian"@ {
        Some(Filter::Gaussian)
    } else if s == "lanczos3"@ {
        Some(Filter::Lanczos3)
    } else {
        None
    }
}

/// The fitting mode a segment names, if any.
pub open spec fn spec_mode(s: Seq<char>) -> Option<FitMode> {
    if s == "fit"@ {
        Some(FitMode::Fit)
    } else if s == "cover"@ {
        Some(FitMode::Cover)
    } else if s == "exact"@ {
        Some(FitMode::Exact)
    } else {
        None
    }
}

/// Position `i` holds the only `'_'` of the token.
pub open spec fn underscore_at(s: Seq<char>, i: int) -> bool {
    &&& 0 <= i < s.len()
    &&& s[i] == '_'
    &&& forall|j: int| 0 <= j < s.len() && #[trigger] s[j] == '_' ==> j == i
}

/// The token consists of exactly two segments joined by one `'_'`.
pub open spec fn shape_ok(s: Seq<char>) -> bool {
    exists|i: int| underscore_at(s, i)
}

/// The position of the token's only `'_'`.
pub open spec fn split_pos(s: Seq<char>) -> int
    recommends
        shape_ok(s),
{
    choose|i: int| underscore_at(s, i)
}

/// The mode segment: everything before the `'_'`.
pub open spec fn mode_seg(s: Seq<char>) -> Seq<char>
    recommends
        shape_ok(s),
{
    s.subrange(0, split_pos(s))
}

/// The filter segment: everything after the `'_'`.
pub open spec fn filter_seg(s: Seq<char>) -> Seq<char>
    recommends
        shape_ok(s),
{
    s.subrange(split_pos(s) + 1, s.len() as int)
}

/// The token is well-shaped and both segments name known values.
pub open spec fn strategy_ok(s: Seq<char>) -> bool {
    &&& shape_ok(s)
    &&& spec_mode(mode_seg(s)) is Some
    &&& spec_filter(filter_seg(s)) is Some
}

/// The strategy a valid token names.
pub open spec fn spec_strategy(s: Seq<char>) -> ResizeStrategy
    recommends
        strategy_ok(s),
{
    ResizeStrategy { mode: spec_mode(mode_seg(s))->Some_0, filter: spec_filter(filter_seg(s))->Some_0 }
}

/// The parse error `pe` describes exactly how the token `s` fails to be a
/// strategy: the whole token when it is not two segments, the mode segment
/// when that is unknown, the filter segment when the mode is known and the
/// filter is not.
pub open spec fn strategy_fault(s: Seq<char>, pe: ParseError) -> bool {
    match pe {
        ParseError::Shape(t) => !shape_ok(s) && t@ == s,
        ParseError::Mode(t) => shape_ok(s) && spec_mode(mode_seg(s)) is None && t@ == mode_seg(s),
        ParseError::Filter(t) => {
            &&& shape_ok(s)
            &&& spec_mode(mode_seg(s)) is Some
            &&& spec_filter(filter_seg(s)) is None
            &&& t@ == filter_seg(s)
        },
        ParseError::Subtype(_) => false,
    }
}

/// Character-for-character string equality.
pub(crate) fn str_eq(a: &str, b: &str) -> (r: bool)
    ensures
        r == (a@ == b@),
{
    let na = a.unicode_len();
    let nb = b.unicode_len();
    if na != nb {
        proof {
            assert(a@ != b@) by {
                if a@ == b@ {
                    assert(a@.len() == b@.len());
                }
            }
        }
        return false;
    }
    let mut i: usize = 0;
    while i < na
        invariant
            na == a@.len(),
            nb == b@.len(),
            na == nb,
            0 <= i <= na,
            forall|j: int| 0 <= j < i ==> a@[j] == b@[j],
        decreases na - i,
    {
        if a.get_char(i) != b.get_char(i) {
            proof {
                assert(a@ != b@) by {
                    if a@ == b@ {
                        assert(a@[i as int] == b@[i as int]);
                    }
                }
            }
            return false;
        }
        i += 1;
    }
    proof {
        assert(a@ =~= b@);
    }
    true
}

/// Parse a bare filter segment.
///
/// Returns the filter the segment names; any other segment fails with a
/// [`ParseError::Filter`] carrying the segment, never a default.
pub fn filter_parser(filter: &str) -> (r: Result<Filter, ParseError>)
    ensures
        match r {
            Ok(f) => spec_filter(filter@) == Some(f),
            Err(e) => {
                &&& spec_filter(filter@) is None
                &&& e matches ParseError::Filter(t) && t@ == filter@
            },
        },
{
    if str_eq(filter, "nearest") {
        Ok(Filter::Nearest)
    } else if str_eq(filter, "triangle") {
        Ok(Filter::Triangle)
    } else if str_eq(filter, "catmullRom") {
        Ok(Filter::CatmullRom)
    } else if str_eq(filter, "gaussian") {
        Ok(Filter::Gaussian)
    } else if str_eq(filter, "lanczos3") {
        Ok(Filter::Lanczos3)
    } else {
        Err(ParseError::Filter(filter.to_owned()))
    }
}

/// Parse a strategy token into a validated mode and filter.
///
/// The token must be exactly two segments joined by one `'_'`; the first
/// must name a fitting mode and the second a filter. Each failure names the
/// segment that was invalid: the whole token when the shape is wrong, the
/// mode segment, or the filter segment.
pub fn strategy_parser(strategy: &str) -> (r: Result<ResizeStrategy, ParseError>)
    ensures
        match r {
            Ok(st) => strategy_ok(strategy@) && st == spec_strategy(strategy@),
            Err(pe) => !strategy_ok(strategy@) && strategy_fault(strategy@, pe),
        },
{
    let n = strategy.unicode_len();
    let mut i: usize = 0;
    let mut pos: usize = 0;
    let mut found = false;
    let mut dup = false;
    while i < n
        invariant
            n == strategy@.len(),
            0 <= i <= n,
            !found ==> forall|j: int| 0 <= j < i ==> strategy@[j] != '_',
            found ==> pos < i && strategy@[pos as int] == '_',
            found && !dup ==> forall|j: int|
                0 <= j < i && j != pos ==> strategy@[j] != '_',
            dup ==> found,
            dup ==> exists|j: int| 0 <= j < i && j != pos && #[trigger] strategy@[j] == '_',
        decreases n - i,
    {
        let c = strategy.get_char(i);
        if c == '_' {
            if found {
                dup = true;
            } else {
                found = true;
                pos = i;
            }
        }
        i += 1;
    }
    if !found {
        proof {
            assert forall|k: int| !underscore_at(strategy@, k) by {
                if 0 <= k < strategy@.len() {
                    assert(strategy@[k] != '_');
                }
            }
        }
        return Err(ParseError::Shape(strategy.to_owned()));
    }
    if dup {
        proof {
            let j0 = choose|j: int|
                0 <= j < n && j != pos && #[trigger] strategy@[j] == '_';
            assert forall|k: int| !underscore_at(strategy@, k) by {
                if underscore_at(strategy@, k) {
                    assert(strategy@[pos as int] == '_');
                    assert(strategy@[j0] == '_');
                }
            }
        }
        return Err(ParseError::Shape(strategy.to_owned()));
    }
    proof {
        assert(underscore_at(strategy@, pos as int));
        assert(shape_ok(strategy@));
        let k = split_pos(strategy@);
        assert(underscore_at(strategy@, k));
        assert(strategy@[k] == '_');
        assert(k == pos as int);
    }
    let mode_s = strategy.substring_char(0, pos);
    let filt_s = strategy.substring_char(pos + 1, n);
    proof {
        assert(mode_s@ == mode_seg(strategy@));
        assert(filt_s@ == filter_seg(strategy@));
    }
    let mode: Option<FitMode> = if str_eq(mode_s, "fit") {
        Some(FitMode::Fit)
    } else if str_eq(mode_s, "cover") {
        Some(FitMode::Cover)
    } else if str_eq(mode_s, "exact") {
        Some(FitMode::Exact)
    } else {
        None
    };
    match mode {
        None => Err(ParseError::Mode(mode_s.to_owned())),
        Some(m) => match filter_parser(filt_s) {
            Ok(f) => Ok(ResizeStrategy { mode: m, filter: f }),
            Err(pe) => Err(pe),
        },
    }
}

} // verus!
