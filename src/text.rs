//! Human-readable renderings of formats, frame sizes and frame intervals.
use vstd::prelude::*;
use vstd::string::StringExecFns;

use crate::enumerate::{lossy_string, utf8_lossy, FormatInfo, IntervalInfo, ResolutionInfo};

verus! {

pub open spec fn digits() -> Seq<char> {
    seq!['0', '1', '2', '3', '4', '5', '6', '7', '8', '9']
}

/// The decimal digits of `n`.
pub open spec fn decimal(n: nat) -> Seq<char>
    decreases n,
{
    if n < 10 {
        seq![digits()[n as int]]
    } else {
        decimal(n / 10) + seq![digits()[(n % 10) as int]]
    }
}

fn digit(d: u32) -> (r: &'static str)
    requires
        d < 10,
    ensures
        r@ == seq![digits()[d as int]],
{
    proof {
        reveal_strlit("0");
        reveal_strlit("1");
        reveal_strlit("2");
        reveal_strlit("3");
        reveal_strlit("4");
        reveal_strlit("5");
        reveal_strlit("6");
        reveal_strlit("7");
        reveal_strlit("8");
        reveal_strlit("9");
    }
    let r = if d == 0 {
        "0"
    } else if d == 1 {
        "1"
    } else if d == 2 {
        "2"
    } else if d == 3 {
        "3"
    } else if d == 4 {
        "4"
    } else if d == 5 {
        "5"
    } else if d == 6 {
        "6"
    } else if d == 7 {
        "7"
    } else if d == 8 {
        "8"
    } else {
        "9"
    };
    assert(r@ =~= seq![digits()[d as int]]);
    r
}

/// Appends the decimal digits of `n`.
pub fn push_decimal(s: &mut String, n: u32)
    ensures
        final(s)@ == old(s)@ + decimal(n as nat),
    decreases n,
{
    if n >= 10 {
        push_decimal(s, n / 10);
    }
    s.append(digit(n % 10));
    assert(final(s)@ =~= old(s)@ + decimal(n as nat));
}

/// `640x480`.
pub open spec fn size_text(p: (u32, u32)) -> Seq<char> {
    decimal(p.0 as nat) + "x"@ + decimal(p.1 as nat)
}

/// `30fps`: frames per second of an interval, whole; `?fps` for a zero numerator.
pub open spec fn rate_text(p: (u32, u32)) -> Seq<char> {
    if p.0 == 0 {
        "?fps"@
    } else {
        decimal((p.1 / p.0) as nat) + "fps"@
    }
}

/// The items of `s`, each rendered by `f`, with `, ` between them.
pub open spec fn joined(s: Seq<(u32, u32)>, f: spec_fn((u32, u32)) -> Seq<char>) -> Seq<char>
    decreases s.len(),
{
    if s.len() == 0 {
        seq![]
    } else if s.len() == 1 {
        f(s[0])
    } else {
        joined(s.drop_last(), f) + ", "@ + f(s.last())
    }
}

fn push_size(s: &mut String, p: (u32, u32))
    ensures
        final(s)@ == old(s)@ + size_text(p),
{
    push_decimal(s, p.0);
    s.append("x");
    push_decimal(s, p.1);
    assert(final(s)@ =~= old(s)@ + size_text(p));
}

fn push_rate(s: &mut String, p: (u32, u32))
    ensures
        final(s)@ == old(s)@ + rate_text(p),
{
    if p.0 == 0 {
        s.append("?fps");
    } else {
        push_decimal(s, p.1 / p.0);
        s.append("fps");
        assert(final(s)@ =~= old(s)@ + rate_text(p));
    }
}

/// Appends the items of `v`, each as a size (`rates` false) or as a rate, with `, `
/// between them.
fn push_joined(s: &mut String, v: &Vec<(u32, u32)>, rates: bool)
    ensures
        !rates ==> final(s)@ == old(s)@ + joined(v@, |p: (u32, u32)| size_text(p)),
        rates ==> final(s)@ == old(s)@ + joined(v@, |p: (u32, u32)| rate_text(p)),
{
    let ghost f = if rates {
        |p: (u32, u32)| rate_text(p)
    } else {
        |p: (u32, u32)| size_text(p)
    };
    let ghost start = s@;
    let mut i: usize = 0;
    while i < v.len()
        invariant
            i <= v.len(),
            s@ == start + joined(v@.take(i as int), f),
            f == (if rates {
                |p: (u32, u32)| rate_text(p)
            } else {
                |p: (u32, u32)| size_text(p)
            }),
        decreases v.len() - i,
    {
        let ghost before = s@;
        if i > 0 {
            s.append(", ");
        }
        if rates {
            push_rate(s, v[i]);
        } else {
            push_size(s, v[i]);
        }
        proof {
            let t = v@.take(i + 1);
            assert(t.drop_last() =~= v@.take(i as int));
            assert(t.last() == v@[i as int]);
            if i == 0 {
                assert(s@ =~= start + joined(t, f));
            } else {
                assert(s@ =~= start + joined(t, f));
            }
        }
        i = i + 1;
    }
    assert(v@.take(v@.len() as int) =~= v@);
}

impl ResolutionInfo {
    /// `Discretes: 640x480, 320x240`, or `Stepwise from 16x16 to 1920x1080 by 8x8`.
    pub fn describe(&self) -> (r: String)
        ensures
            *self matches ResolutionInfo::Discretes(d) ==> r@ == "Discretes: "@ + joined(
                d@,
                |p: (u32, u32)| size_text(p),
            ),
            *self matches ResolutionInfo::Stepwise { min, max, step } ==> r@ == "Stepwise from "@
                + size_text(min) + " to "@ + size_text(max) + " by "@ + size_text(step),
    {
        let mut s = String::new();
        match self {
            ResolutionInfo::Discretes(d) => {
                s.append("Discretes: ");
                push_joined(&mut s, d, false);
            },
            ResolutionInfo::Stepwise { min, max, step } => {
                s.append("Stepwise from ");
                push_size(&mut s, *min);
                s.append(" to ");
                push_size(&mut s, *max);
                s.append(" by ");
                push_size(&mut s, *step);
            },
        }
        s
    }
}

impl IntervalInfo {
    /// `Discretes: 30fps, 15fps`, or `Stepwise from 60fps to 1fps by 60fps` (from the
    /// shortest interval to the longest).
    pub fn describe(&self) -> (r: String)
        ensures
            *self matches IntervalInfo::Discretes(d) ==> r@ == "Discretes: "@ + joined(
                d@,
                |p: (u32, u32)| rate_text(p),
            ),
            *self matches IntervalInfo::Stepwise { min, max, step } ==> r@ == "Stepwise from "@
                + rate_text(max) + " to "@ + rate_text(min) + " by "@ + rate_text(step),
    {
        let mut s = String::new();
        match self {
            IntervalInfo::Discretes(d) => {
                s.append("Discretes: ");
                push_joined(&mut s, d, true);
            },
            IntervalInfo::Stepwise { min, max, step } => {
                s.append("Stepwise from ");
                push_rate(&mut s, *max);
                s.append(" to ");
                push_rate(&mut s, *min);
                s.append(" by ");
                push_rate(&mut s, *step);
            },
        }
        s
    }
}

/// `, compressed`, `, emulated`, both or neither.
pub open spec fn flags_text(compressed: bool, emulated: bool) -> Seq<char> {
    if compressed && emulated {
        ", compressed, emulated"@
    } else if compressed {
        ", compressed"@
    } else if emulated {
        ", emulated"@
    } else {
        ""@
    }
}

impl FormatInfo {
    /// `MJPG (Motion-JPEG, compressed)`.
    pub fn describe(&self) -> (r: String)
        ensures
            r@ == utf8_lossy(self.format@) + " ("@ + self.description@ + flags_text(
                self.compressed,
                self.emulated,
            ) + ")"@,
    {
        let mut s = lossy_string(vstd::array::array_as_slice(&self.format));
        s.append(" (");
        s.append(self.description.as_str());
        if self.compressed && self.emulated {
            s.append(", compressed, emulated");
        } else if self.compressed {
            s.append(", compressed");
        } else if self.emulated {
            s.append(", emulated");
        } else {
            s.append("");
        }
        s.append(")");
        s
    }
}

} // verus!
