use vstd::prelude::*;
use vstd::string::StringExecFns;
use crate::decimal::{hundredths, push_hundredths};

verus! {

/// A size in hundredths of a pixel, in hundredths of a percent of a container,
/// or in both at once. `Null` is the size that is not set.
#[derive(Debug, Clone, Copy, PartialEq, Eq, Structural)]
pub enum StyleLength {
    Null,
    Pixel(u32),
    Percent(u64),
    PixelPercent(u32, u64),
}

/// One style property to write on an element, with its value.
#[derive(Debug, Clone)]
pub struct StyleWrite {
    pub property: &'static str,
    pub value: String,
}

/// The share of `len` in `par_len`, in hundredths of a percent, rounded to
/// the nearest hundredth; a half goes up. A third is `3333`, two thirds are
/// `6667`.
pub open spec fn percent_of(len: int, par_len: int) -> int
    recommends
        0 <= len,
        par_len > 0,
{
    (len * 10000 + par_len / 2) / par_len
}

/// The share of `len` in `par_len`, in hundredths of a percent, rounded to
/// the nearest hundredth.
pub fn percent(len: u32, par_len: u32) -> (res: u64)
    requires
        par_len > 0,
    ensures
        res == percent_of(len as int, par_len as int),
{
    (len as u64 * 10000 + par_len as u64 / 2) / par_len as u64
}

/// The name of the size property along the axis.
pub open spec fn spec_length_property(is_lateral: bool) -> Seq<char> {
    if is_lateral {
        "width"@
    } else {
        "height"@
    }
}

/// The name of the size property along the axis: the width if lateral, else
/// the height.
pub fn length_property(is_lateral: bool) -> (res: &'static str)
    ensures
        res@ == spec_length_property(is_lateral),
{
    if is_lateral {
        "width"
    } else {
        "height"
    }
}

impl Default for StyleLength {
    fn default() -> (res: StyleLength)
        ensures
            res == StyleLength::Null,
    {
        StyleLength::Null
    }
}

impl StyleLength {
    /// The length that `new` builds.
    pub open spec fn spec_new(len: u32, par_len: u32, to_pixel: bool) -> StyleLength {
        if to_pixel {
            StyleLength::Pixel(len)
        } else {
            StyleLength::Percent(percent_of(len as int, par_len as int) as u64)
        }
    }

    /// Whether a size of `len` in a container of `par_len` is at least this
    /// length. The proportional part is compared with the share of `len` as
    /// `new` would store it, in whole hundredths of a percent.
    pub open spec fn spec_min_check(self, len: u32, par_len: u32) -> bool {
        self.spec_check_min_limit(len as int, percent_of(len as int, par_len as int))
    }

    /// Whether a size of `len` in a container of `par_len` is at most this
    /// length.
    pub open spec fn spec_max_check(self, len: u32, par_len: u32) -> bool {
        self.spec_check_max_limit(len as int, percent_of(len as int, par_len as int))
    }

    /// This length as hundredths of a percent of `parent_len`.
    pub open spec fn spec_to_percent(self, parent_len: u32) -> int {
        match self {
            StyleLength::Pixel(v) => percent_of(v as int, parent_len as int),
            StyleLength::Percent(v) => v as int,
            StyleLength::PixelPercent(_, v) => v as int,
            StyleLength::Null => 0,
        }
    }

    /// The absolute part, where there is one.
    pub open spec fn spec_pixel(self) -> Option<u32> {
        match self {
            StyleLength::Pixel(v) => Some(v),
            StyleLength::PixelPercent(v, _) => Some(v),
            _ => None,
        }
    }

    /// The proportional part, where there is one.
    pub open spec fn spec_percent(self) -> Option<u64> {
        match self {
            StyleLength::Percent(v) => Some(v),
            StyleLength::PixelPercent(_, v) => Some(v),
            _ => None,
        }
    }

    /// The number this length carries first.
    pub open spec fn spec_value(self) -> int {
        match self {
            StyleLength::Pixel(v) => v as int,
            StyleLength::Percent(v) => v as int,
            StyleLength::PixelPercent(v, _) => v as int,
            StyleLength::Null => 0,
        }
    }

    /// The text of this length as a style value.
    pub open spec fn spec_style_value(self) -> Seq<char> {
        match self {
            StyleLength::Pixel(v) => hundredths(v as nat) + "px"@,
            StyleLength::PixelPercent(v, _) => hundredths(v as nat) + "px"@,
            StyleLength::Percent(v) => hundredths(v as nat) + "%"@,
            StyleLength::Null => Seq::<char>::empty(),
        }
    }

    /// Whether a size, given as `to_length` and as `to_percent_length`, is at
    /// least this length.
    pub open spec fn spec_check_min_limit(self, to_length: int, to_percent_length: int) -> bool {
        match self {
            StyleLength::Pixel(v) => to_length >= v,
            StyleLength::Percent(v) => to_percent_length >= v,
            StyleLength::PixelPercent(v1, v2) => to_length >= v1 && to_percent_length >= v2,
            StyleLength::Null => true,
        }
    }

    /// Whether a size, given as `to_length` and as `to_percent_length`, is at
    /// most this length.
    pub open spec fn spec_check_max_limit(self, to_length: int, to_percent_length: int) -> bool {
        match self {
            StyleLength::Pixel(v) => to_length <= v,
            StyleLength::Percent(v) => to_percent_length <= v,
            StyleLength::PixelPercent(v1, v2) => to_length <= v1 && to_percent_length <= v2,
            StyleLength::Null => true,
        }
    }

    /// The length of `len` inside a container of `par_len`: absolute if
    /// `to_pixel`, else the share of the container, to the nearest hundredth
    /// of a percent. A share of nothing does not exist: a proportional length
    /// needs `par_len > 0`.
    pub fn new(len: u32, par_len: u32, to_pixel: bool) -> (res: StyleLength)
        requires
            to_pixel || par_len > 0,
        ensures
            res == Self::spec_new(len, par_len, to_pixel),
            to_pixel ==> res == StyleLength::Pixel(len),
            !to_pixel ==> res.spec_percent() == Some(percent_of(len as int, par_len as int) as u64)
                && res.spec_pixel().is_none() && 0 <= percent_of(len as int, par_len as int)
                <= u64::MAX,
    {
        if to_pixel {
            StyleLength::Pixel(len)
        } else {
            StyleLength::Percent(percent(len, par_len))
        }
    }

    /// Is a size of `len`, in a container of `par_len`, at least this length?
    /// An absolute part asks `len >= v`; a proportional part asks it of the
    /// share of `len` in the container, to the nearest hundredth of a percent;
    /// a length with both asks both, and `Null` asks nothing. Only a
    /// proportional part divides by `par_len`, which then must not be zero.
    pub fn min_check(&self, len: u32, par_len: u32) -> (ok: bool)
        requires
            self.spec_percent().is_some() ==> par_len > 0,
        ensures
            ok == self.spec_min_check(len, par_len),
    {
        match self {
            StyleLength::Pixel(v) => len >= *v,
            StyleLength::Percent(v) => percent(len, par_len) >= *v,
            StyleLength::PixelPercent(v1, v2) => len >= *v1 && percent(len, par_len) >= *v2,
            StyleLength::Null => true,
        }
    }

    /// Is a size of `len`, in a container of `par_len`, at most this length?
    /// The mirror of `min_check`.
    pub fn max_check(&self, len: u32, par_len: u32) -> (ok: bool)
        requires
            self.spec_percent().is_some() ==> par_len > 0,
        ensures
            ok == self.spec_max_check(len, par_len),
    {
        match self {
            StyleLength::Pixel(v) => len <= *v,
            StyleLength::Percent(v) => percent(len, par_len) <= *v,
            StyleLength::PixelPercent(v1, v2) => len <= *v1 && percent(len, par_len) <= *v2,
            StyleLength::Null => true,
        }
    }

    /// This length in hundredths of a percent of `parent_len`. Only an absolute
    /// length is divided by `parent_len`, which then must not be zero.
    pub fn to_percent(&self, parent_len: u32) -> (res: u64)
        requires
            self is Pixel ==> parent_len > 0,
        ensures
            res == self.spec_to_percent(parent_len),
    {
        match self {
            StyleLength::Pixel(v) => percent(*v, parent_len),
            StyleLength::Percent(v) => *v,
            StyleLength::PixelPercent(_, v) => *v,
            StyleLength::Null => 0,
        }
    }

    /// The absolute part, where there is one.
    pub fn pixel(&self) -> (res: Option<u32>)
        ensures
            res == self.spec_pixel(),
    {
        match self {
            StyleLength::Pixel(v) => Some(*v),
            StyleLength::Percent(_) => None,
            StyleLength::PixelPercent(v, _) => Some(*v),
            StyleLength::Null => None,
        }
    }

    /// The proportional part, where there is one.
    pub fn percent(&self) -> (res: Option<u64>)
        ensures
            res == self.spec_percent(),
    {
        match self {
            StyleLength::Pixel(_) => None,
            StyleLength::Percent(v) => Some(*v),
            StyleLength::PixelPercent(_, v) => Some(*v),
            StyleLength::Null => None,
        }
    }

    /// The number this length carries: the absolute one where it has both,
    /// zero where it has none.
    pub fn value(&self) -> (res: u64)
        ensures
            res == self.spec_value(),
    {
        match self {
            StyleLength::Pixel(v) => *v as u64,
            StyleLength::Percent(v) => *v,
            StyleLength::PixelPercent(v, _) => *v as u64,
            StyleLength::Null => 0,
        }
    }

    /// The length as a style value with two decimals: `45000` hundredths of a
    /// pixel are `450.00px`, `9500` hundredths of a percent are `95.00%`. The
    /// absolute part wins over the proportional one, and `Null` is the empty text.
    pub fn style_value(&self) -> (res: String)
        ensures
            res@ == self.spec_style_value(),
    {
        let mut out = String::new();
        if let Some(pixel) = self.pixel() {
            push_hundredths(&mut out, pixel as u64);
            out.append("px");
        } else if let Some(percent) = self.percent() {
            push_hundredths(&mut out, percent);
            out.append("%");
        }
        assert(out@ =~= self.spec_style_value());
        out
    }

    /// What to write on an element so that it takes this length along the
    /// axis: nothing for `Null`, else the width or the height with the style
    /// value.
    pub fn set_style(&self, is_lateral: bool) -> (res: Option<StyleWrite>)
        ensures
            (self is Null) <==> res.is_none(),
            res matches Some(w) ==> w.property@ == spec_length_property(is_lateral) && w.value@
                == self.spec_style_value(),
    {
        if let StyleLength::Null = self {
            None
        } else {
            Some(StyleWrite { property: length_property(is_lateral), value: self.style_value() })
        }
    }

    /// Is a size at least this limit, the size given twice: as `to_length` in
    /// hundredths of a pixel and as `to_percent_length` in hundredths of a
    /// percent?
    pub fn check_min_limit(&self, to_length: u32, to_percent_length: u64) -> (ok: bool)
        ensures
            ok == self.spec_check_min_limit(to_length as int, to_percent_length as int),
    {
        match self {
            StyleLength::Pixel(v) => to_length >= *v,
            StyleLength::Percent(v) => to_percent_length >= *v,
            StyleLength::PixelPercent(v1, v2) => to_length >= *v1 && to_percent_length >= *v2,
            StyleLength::Null => true,
        }
    }

    /// Is a size at most this limit, the size given twice as for
    /// `check_min_limit`?
    pub fn check_max_limit(&self, to_length: u32, to_percent_length: u64) -> (ok: bool)
        ensures
            ok == self.spec_check_max_limit(to_length as int, to_percent_length as int),
    {
        match self {
            StyleLength::Pixel(v) => to_length <= *v,
            StyleLength::Percent(v) => to_percent_length <= *v,
            StyleLength::PixelPercent(v1, v2) => to_length <= *v1 && to_percent_length <= *v2,
            StyleLength::Null => true,
        }
    }

    /// This length in hundredths of a percent of `parent_length`; the same as
    /// `to_percent`.
    pub fn to_percent_length(&self, parent_length: u32) -> (res: u64)
        requires
            self is Pixel ==> parent_length > 0,
        ensures
            res == self.spec_to_percent(parent_length),
    {
        self.to_percent(parent_length)
    }
}

/// A length accepts the size it was built from, as a lower and as an upper
/// bound: the comparisons include the bound, and they look at the share as
/// `new` stores it.
pub proof fn lemma_new_accepts_its_size(len: u32, par_len: u32, to_pixel: bool)
    requires
        par_len > 0,
    ensures
        StyleLength::spec_new(len, par_len, to_pixel).spec_min_check(len, par_len),
        StyleLength::spec_new(len, par_len, to_pixel).spec_max_check(len, par_len),
{
    lemma_percent_of_bounds(len as int, par_len as int);
}

/// A share is not below zero and fits 64 bits.
pub proof fn lemma_percent_of_bounds(len: int, par_len: int)
    by (nonlinear_arith)
    requires
        0 <= len <= u32::MAX,
        0 < par_len,
    ensures
        0 <= percent_of(len, par_len) <= u32::MAX * 10000 + 1,
        len <= par_len ==> percent_of(len, par_len) <= 10000,
{
}

/// A larger size has a share that is not smaller.
pub proof fn lemma_percent_of_grows(smaller: int, larger: int, par_len: int)
    by (nonlinear_arith)
    requires
        0 <= smaller <= larger,
        0 < par_len,
    ensures
        percent_of(smaller, par_len) <= percent_of(larger, par_len),
{
}

/// A larger size meets every lower limit that a smaller one meets.
pub proof fn lemma_min_check_grows(limit: StyleLength, smaller: u32, larger: u32, par_len: u32)
    requires
        par_len > 0,
        smaller <= larger,
        limit.spec_min_check(smaller, par_len),
    ensures
        limit.spec_min_check(larger, par_len),
{
    lemma_percent_of_grows(smaller as int, larger as int, par_len as int);
}

/// A smaller size meets every upper limit that a larger one meets.
pub proof fn lemma_max_check_shrinks(limit: StyleLength, smaller: u32, larger: u32, par_len: u32)
    requires
        par_len > 0,
        smaller <= larger,
        limit.spec_max_check(larger, par_len),
    ensures
        limit.spec_max_check(smaller, par_len),
{
    lemma_percent_of_grows(smaller as int, larger as int, par_len as int);
}

} // verus!
