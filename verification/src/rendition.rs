//! The rendition state machine: parses select-graphic-rendition parameter
//! lists into pen-state mutations.
//!
//! A list of at most two parameters is applied parameter by parameter in
//! list order. A longer list is matched as a structured form: a trailing
//! `38,5,N` or `48,5,N` triple selects an extended-palette color for the
//! foreground or background after the leading parameters are applied as a
//! short-form list, and a leading `38,2,r,g,b[,a]` or `48,2,r,g,b[,a]`
//! selects a direct color with missing or out-of-range channels defaulted.
//! Unmatched structured forms (including a trailing triple whose palette
//! index falls outside 0..=255) are ignored, as are unrecognized short-form
//! parameters.

use vstd::prelude::*;

use crate::color::Attribute;
use crate::color::Color;
use crate::color::RGBA;

verus! {

/// The pen: the colors and attributes new printed characters inherit.
#[derive(Clone, Copy, Debug, PartialEq, Eq, Structural)]
pub struct Pen {
    pub fg: Color,
    pub bg: Color,
    pub attr: Attribute,
}

impl Pen {
    /// The reset pen: foreground index 7, background index 0, no attribute.
    pub open spec fn default_spec() -> Pen {
        Pen { fg: Color::default_fg(), bg: Color::default_bg(), attr: Attribute::normal_spec() }
    }

    /// Both pen colors are well formed.
    pub open spec fn wf(self) -> bool {
        self.fg.wf() && self.bg.wf()
    }

    /// Builds the reset pen.
    pub fn reset() -> (r: Pen)
        ensures
            r == Pen::default_spec(),
    {
        Pen { fg: Color::BasePalette(7), bg: Color::BasePalette(0), attr: Attribute::normal() }
    }
}

/// The closed attribute table: codes that switch one of the four attribute
/// flags on or off; every other code in the attribute range leaves the set
/// unchanged.
pub open spec fn apply_attr(a: Attribute, v: i64) -> Attribute {
    if v == 1 {
        Attribute { bold: true, ..a }
    } else if v == 4 {
        Attribute { underline: true, ..a }
    } else if v == 5 {
        Attribute { blink: true, ..a }
    } else if v == 7 {
        Attribute { reverse: true, ..a }
    } else if v == 22 {
        Attribute { bold: false, ..a }
    } else if v == 24 {
        Attribute { underline: false, ..a }
    } else if v == 25 {
        Attribute { blink: false, ..a }
    } else if v == 27 {
        Attribute { reverse: false, ..a }
    } else {
        a
    }
}

/// One short-form parameter: `0` resets the pen; `1..=27` switches an
/// attribute; `30..=37` picks a base-palette foreground from the dark or
/// light palette half; `38` alone resets the foreground; `40..=47` picks a
/// base-palette background analogously; `49` resets the background;
/// anything else is ignored.
pub open spec fn apply_one(p: Pen, v: i64, dark_mode: bool) -> Pen {
    if v == 0 {
        Pen::default_spec()
    } else if 1 <= v <= 27 {
        Pen { attr: apply_attr(p.attr, v), ..p }
    } else if 30 <= v <= 37 {
        let idx = if dark_mode {
            v - 30
        } else {
            v - 30 + 8
        };
        Pen { fg: Color::BasePalette(idx as u8), ..p }
    } else if v == 38 {
        Pen { fg: Color::default_fg(), ..p }
    } else if 40 <= v <= 47 {
        let idx = if dark_mode {
            v - 40
        } else {
            v - 40 + 8
        };
        Pen { bg: Color::BasePalette(idx as u8), ..p }
    } else if v == 49 {
        Pen { bg: Color::default_bg(), ..p }
    } else {
        p
    }
}

/// A short-form list applied parameter by parameter in list order.
pub open spec fn apply_short(p: Pen, vs: Seq<i64>, dark_mode: bool) -> Pen
    decreases vs.len(),
{
    if vs.len() == 0 {
        p
    } else {
        apply_short(apply_one(p, vs.first(), dark_mode), vs.skip(1), dark_mode)
    }
}

/// One direct-color channel: the parameter at position `k` when present and
/// in byte range, the default otherwise.
pub open spec fn channel(vs: Seq<i64>, k: int, dflt: u8) -> u8 {
    if k < vs.len() && 0 <= vs[k] <= 255 {
        vs[k] as u8
    } else {
        dflt
    }
}

/// The direct color selected by a `38,2,...` or `48,2,...` form: color
/// channels default to 0, alpha to 255.
pub open spec fn direct_color(vs: Seq<i64>) -> Color {
    Color::Direct(
        RGBA {
            r: channel(vs, 2, 0),
            g: channel(vs, 3, 0),
            b: channel(vs, 4, 0),
            a: channel(vs, 5, 255),
        },
    )
}

/// A full select-graphic-rendition parameter list applied to the pen.
pub open spec fn apply_rendition(p: Pen, vs: Seq<i64>, dark_mode: bool) -> Pen {
    let n = vs.len() as int;
    if n <= 2 {
        apply_short(p, vs, dark_mode)
    } else if vs[n - 3] == 38 && vs[n - 2] == 5 && 0 <= vs[n - 1] <= 255 {
        let p1 = apply_short(p, vs.take(n - 3), dark_mode);
        Pen { fg: Color::ExtendedPalette(vs[n - 1] as u8), ..p1 }
    } else if vs[n - 3] == 48 && vs[n - 2] == 5 && 0 <= vs[n - 1] <= 255 {
        let p1 = apply_short(p, vs.take(n - 3), dark_mode);
        Pen { bg: Color::ExtendedPalette(vs[n - 1] as u8), ..p1 }
    } else if vs[0] == 38 && vs[1] == 2 {
        Pen { fg: direct_color(vs), ..p }
    } else if vs[0] == 48 && vs[1] == 2 {
        Pen { bg: direct_color(vs), ..p }
    } else {
        p
    }
}

/// The attribute table never leaves the closed attribute domain, and every
/// short-form parameter keeps the pen well formed.
pub proof fn lemma_apply_one_wf(p: Pen, v: i64, dark_mode: bool)
    requires
        p.wf(),
    ensures
        apply_one(p, v, dark_mode).wf(),
{
}

/// Applying a short-form list keeps the pen well formed.
pub proof fn lemma_apply_short_wf(p: Pen, vs: Seq<i64>, dark_mode: bool)
    requires
        p.wf(),
    ensures
        apply_short(p, vs, dark_mode).wf(),
    decreases vs.len(),
{
    if vs.len() > 0 {
        lemma_apply_one_wf(p, vs.first(), dark_mode);
        lemma_apply_short_wf(apply_one(p, vs.first(), dark_mode), vs.skip(1), dark_mode);
    }
}

/// Applying a full parameter list keeps the pen well formed.
pub proof fn lemma_apply_rendition_wf(p: Pen, vs: Seq<i64>, dark_mode: bool)
    requires
        p.wf(),
    ensures
        apply_rendition(p, vs, dark_mode).wf(),
{
    let n = vs.len() as int;
    lemma_apply_short_wf(p, vs, dark_mode);
    if n > 2 {
        lemma_apply_short_wf(p, vs.take(n - 3), dark_mode);
    }
}

/// Applying one more parameter extends a short-form application at its end.
pub proof fn lemma_apply_short_snoc(p: Pen, vs: Seq<i64>, v: i64, dark_mode: bool)
    ensures
        apply_short(p, vs.push(v), dark_mode) == apply_one(apply_short(p, vs, dark_mode), v, dark_mode),
    decreases vs.len(),
{
    if vs.len() == 0 {
        assert(vs.push(v).first() == v);
        assert(vs.push(v).skip(1) =~= Seq::<i64>::empty());
        assert(apply_short(apply_one(p, v, dark_mode), vs.push(v).skip(1), dark_mode) == apply_one(
            p,
            v,
            dark_mode,
        ));
    } else {
        assert(vs.push(v).first() == vs.first());
        assert(vs.push(v).skip(1) =~= vs.skip(1).push(v));
        lemma_apply_short_snoc(apply_one(p, vs.first(), dark_mode), vs.skip(1), v, dark_mode);
    }
}

/// Applies one short-form parameter to the pen.
pub fn apply_one_exec(p: Pen, v: i64, dark_mode: bool) -> (r: Pen)
    ensures
        r == apply_one(p, v, dark_mode),
{
    if v == 0 {
        Pen::reset()
    } else if 1 <= v && v <= 27 {
        let a = p.attr;
        let attr = if v == 1 {
            Attribute { bold: true, ..a }
        } else if v == 4 {
            Attribute { underline: true, ..a }
        } else if v == 5 {
            Attribute { blink: true, ..a }
        } else if v == 7 {
            Attribute { reverse: true, ..a }
        } else if v == 22 {
            Attribute { bold: false, ..a }
        } else if v == 24 {
            Attribute { underline: false, ..a }
        } else if v == 25 {
            Attribute { blink: false, ..a }
        } else if v == 27 {
            Attribute { reverse: false, ..a }
        } else {
            a
        };
        Pen { attr, ..p }
    } else if 30 <= v && v <= 37 {
        let idx = if dark_mode {
            (v - 30) as u8
        } else {
            (v - 30 + 8) as u8
        };
        Pen { fg: Color::BasePalette(idx), ..p }
    } else if v == 38 {
        Pen { fg: Color::BasePalette(7), ..p }
    } else if 40 <= v && v <= 47 {
        let idx = if dark_mode {
            (v - 40) as u8
        } else {
            (v - 40 + 8) as u8
        };
        Pen { bg: Color::BasePalette(idx), ..p }
    } else if v == 49 {
        Pen { bg: Color::BasePalette(0), ..p }
    } else {
        p
    }
}

/// Applies the parameters at positions `[0, upto)` as a short-form list.
fn apply_short_exec(p: Pen, vs: &Vec<i64>, upto: usize, dark_mode: bool) -> (r: Pen)
    requires
        upto <= vs@.len(),
    ensures
        r == apply_short(p, vs@.take(upto as int), dark_mode),
{
    let mut pen = p;
    let mut i: usize = 0;
    proof {
        assert(vs@.take(0) =~= Seq::<i64>::empty());
    }
    while i < upto
        invariant
            i <= upto,
            upto <= vs@.len(),
            pen == apply_short(p, vs@.take(i as int), dark_mode),
        decreases upto - i,
    {
        pen = apply_one_exec(pen, vs[i], dark_mode);
        proof {
            lemma_apply_short_snoc(p, vs@.take(i as int), vs@[i as int], dark_mode);
            assert(vs@.take(i + 1) =~= vs@.take(i as int).push(vs@[i as int]));
        }
        i = i + 1;
    }
    pen
}

/// One direct-color channel read from the parameter list.
fn channel_exec(vs: &Vec<i64>, k: usize, dflt: u8) -> (r: u8)
    ensures
        r == channel(vs@, k as int, dflt),
{
    if k < vs.len() && 0 <= vs[k] && vs[k] <= 255 {
        vs[k] as u8
    } else {
        dflt
    }
}

/// Applies a full select-graphic-rendition parameter list to the pen.
pub fn apply_rendition_exec(p: Pen, vs: &Vec<i64>, dark_mode: bool) -> (r: Pen)
    ensures
        r == apply_rendition(p, vs@, dark_mode),
{
    let n = vs.len();
    if n <= 2 {
        let r = apply_short_exec(p, vs, n, dark_mode);
        proof {
            assert(vs@.take(n as int) =~= vs@);
        }
        r
    } else if vs[n - 3] == 38 && vs[n - 2] == 5 && 0 <= vs[n - 1] && vs[n - 1] <= 255 {
        let p1 = apply_short_exec(p, vs, n - 3, dark_mode);
        Pen { fg: Color::ExtendedPalette(vs[n - 1] as u8), ..p1 }
    } else if vs[n - 3] == 48 && vs[n - 2] == 5 && 0 <= vs[n - 1] && vs[n - 1] <= 255 {
        let p1 = apply_short_exec(p, vs, n - 3, dark_mode);
        Pen { bg: Color::ExtendedPalette(vs[n - 1] as u8), ..p1 }
    } else if vs[0] == 38 && vs[1] == 2 {
        let rgba = RGBA {
            r: channel_exec(vs, 2, 0),
            g: channel_exec(vs, 3, 0),
            b: channel_exec(vs, 4, 0),
            a: channel_exec(vs, 5, 255),
        };
        Pen { fg: Color::Direct(rgba), ..p }
    } else if vs[0] == 48 && vs[1] == 2 {
        let rgba = RGBA {
            r: channel_exec(vs, 2, 0),
            g: channel_exec(vs, 3, 0),
            b: channel_exec(vs, 4, 0),
            a: channel_exec(vs, 5, 255),
        };
        Pen { bg: Color::Direct(rgba), ..p }
    } else {
        p
    }
}

} // verus!
