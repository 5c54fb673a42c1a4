//! Command template rendering.
//!
//! A command template may contain the placeholders `$delta_x`, `$delta_y`,
//! `$scale` and `$delta_angle`.  Rendering substitutes each unescaped
//! occurrence with the corresponding numeric value of the motion context,
//! written as a decimal with up to three fractional digits (the values are
//! carried in thousandths).  A placeholder preceded by a backslash is left
//! untouched, backslash included, so the shell still sees the escape.
//! Unmatched text passes through unchanged; rendering never fails.

use crate::gestures::abs_mag;
use vstd::prelude::*;

verus! {

/// A command string together with the numeric motion context it is rendered
/// against. All numeric fields are in thousandths of their unit.
#[derive(Debug)]
pub struct ExecArgs {
    pub args: String,
    pub dx: i64,
    pub dy: i64,
    pub da: i64,
    pub scale: i64,
}

impl ExecArgs {
    /// A context with a bare command and every numeric value zero, for
    /// gesture phases that carry no motion sample.
    pub fn new_args_only(args: String) -> (r: ExecArgs)
        ensures
            r.args == args,
            r.dx == 0 && r.dy == 0 && r.da == 0 && r.scale == 0,
    {
        ExecArgs { args, dx: 0, dy: 0, da: 0, scale: 0 }
    }
}

/// The placeholder tokens a template may contain.
#[derive(Clone, Copy, Debug, PartialEq, Eq, Structural)]
pub enum Placeholder {
    DeltaX,
    DeltaY,
    Scale,
    DeltaAngle,
}

/// The literal text of a placeholder token.
pub open spec fn placeholder_text(p: Placeholder) -> Seq<char> {
    match p {
        Placeholder::DeltaX => seq!['$', 'd', 'e', 'l', 't', 'a', '_', 'x'],
        Placeholder::DeltaY => seq!['$', 'd', 'e', 'l', 't', 'a', '_', 'y'],
        Placeholder::Scale => seq!['$', 's', 'c', 'a', 'l', 'e'],
        Placeholder::DeltaAngle => seq!['$', 'd', 'e', 'l', 't', 'a', '_', 'a', 'n', 'g', 'l', 'e'],
    }
}

/// The context value a placeholder stands for.
pub open spec fn placeholder_value(p: Placeholder, dx: int, dy: int, da: int, scale: int) -> int {
    match p {
        Placeholder::DeltaX => dx,
        Placeholder::DeltaY => dy,
        Placeholder::Scale => scale,
        Placeholder::DeltaAngle => da,
    }
}

/// Whether `pat` occurs in `t` starting at position `i`.
pub open spec fn starts_with(t: Seq<char>, i: int, pat: Seq<char>) -> bool {
    0 <= i && i + pat.len() <= t.len() && t.subrange(i, i + pat.len() as int) == pat
}

/// The placeholder whose text occurs in `t` at position `i`, if any.
/// At most one can occur at a given position, since no placeholder text
/// is a prefix of another.
pub open spec fn placeholder_at(t: Seq<char>, i: int) -> Option<Placeholder> {
    if starts_with(t, i, placeholder_text(Placeholder::DeltaX)) {
        Some(Placeholder::DeltaX)
    } else if starts_with(t, i, placeholder_text(Placeholder::DeltaY)) {
        Some(Placeholder::DeltaY)
    } else if starts_with(t, i, placeholder_text(Placeholder::Scale)) {
        Some(Placeholder::Scale)
    } else if starts_with(t, i, placeholder_text(Placeholder::DeltaAngle)) {
        Some(Placeholder::DeltaAngle)
    } else {
        None
    }
}

/// The decimal digit character for `d` in `0 ..= 9`.
pub open spec fn dec_digit(d: int) -> char {
    if d == 0 {
        '0'
    } else if d == 1 {
        '1'
    } else if d == 2 {
        '2'
    } else if d == 3 {
        '3'
    } else if d == 4 {
        '4'
    } else if d == 5 {
        '5'
    } else if d == 6 {
        '6'
    } else if d == 7 {
        '7'
    } else if d == 8 {
        '8'
    } else {
        '9'
    }
}

/// The decimal digit string of a nonnegative `n`, without leading zeros
/// (a single `0` for zero).
pub open spec fn dec_digits(n: int) -> Seq<char>
    decreases n,
{
    if n < 10 {
        seq![dec_digit(n)]
    } else {
        dec_digits(n / 10).push(dec_digit(n % 10))
    }
}

/// The fractional suffix for a thousandths remainder `r` in `0 ..= 999`:
/// empty when zero, otherwise a dot and the fraction with trailing zeros
/// trimmed.
pub open spec fn frac_part(r: int) -> Seq<char> {
    if r == 0 {
        Seq::empty()
    } else if r % 100 == 0 {
        seq!['.', dec_digit(r / 100)]
    } else if r % 10 == 0 {
        seq!['.', dec_digit(r / 100), dec_digit((r / 10) % 10)]
    } else {
        seq!['.', dec_digit(r / 100), dec_digit((r / 10) % 10), dec_digit(r % 10)]
    }
}

/// The decimal rendering of a value carried in thousandths: integer part,
/// then the trimmed fraction, with a leading minus for negative values.
pub open spec fn fmt_milli(v: int) -> Seq<char> {
    if v < 0 {
        seq!['-'] + dec_digits((-v) / 1000) + frac_part((-v) % 1000)
    } else {
        dec_digits(v / 1000) + frac_part(v % 1000)
    }
}

/// The rendering of template `t` from position `i` on: each unescaped
/// placeholder becomes its formatted context value, a backslash followed
/// by a placeholder is copied verbatim, and every other character is
/// copied unchanged.
pub open spec fn spec_render_from(t: Seq<char>, i: int, dx: int, dy: int, da: int, scale: int) -> Seq<char>
    decreases t.len() - i,
{
    if i < 0 || i >= t.len() {
        Seq::empty()
    } else if t[i] == '\\' && placeholder_at(t, i + 1) is Some {
        let p = placeholder_at(t, i + 1)->0;
        t.subrange(i, i + 1 + placeholder_text(p).len()) + spec_render_from(
            t,
            i + 1 + placeholder_text(p).len(),
            dx,
            dy,
            da,
            scale,
        )
    } else if placeholder_at(t, i) is Some {
        let p = placeholder_at(t, i)->0;
        fmt_milli(placeholder_value(p, dx, dy, da, scale)) + spec_render_from(
            t,
            i + placeholder_text(p).len(),
            dx,
            dy,
            da,
            scale,
        )
    } else {
        seq![t[i]] + spec_render_from(t, i + 1, dx, dy, da, scale)
    }
}

/// The rendering of a whole template against a motion context.
pub open spec fn spec_render(t: Seq<char>, dx: int, dy: int, da: int, scale: int) -> Seq<char> {
    spec_render_from(t, 0, dx, dy, da, scale)
}

/// The rendering of a whole template against the all-zero context.
pub open spec fn spec_render0(t: Seq<char>) -> Seq<char> {
    spec_render(t, 0, 0, 0, 0)
}

/// The rendering of `a.args` against the context carried beside it.
pub open spec fn spec_render_args(a: ExecArgs) -> Seq<char> {
    spec_render(a.args@, a.dx as int, a.dy as int, a.da as int, a.scale as int)
}

/// Whether any placeholder occurs anywhere in `t`.
pub open spec fn contains_placeholder(t: Seq<char>) -> bool {
    exists|i: int| placeholder_at(t, i) is Some
}

proof fn lemma_render_from_no_placeholder(
    t: Seq<char>,
    i: int,
    dx: int,
    dy: int,
    da: int,
    scale: int,
)
    requires
        !contains_placeholder(t),
        0 <= i <= t.len(),
    ensures
        spec_render_from(t, i, dx, dy, da, scale) == t.subrange(i, t.len() as int),
    decreases t.len() - i,
{
    if i >= t.len() {
        assert(spec_render_from(t, i, dx, dy, da, scale) =~= t.subrange(i, t.len() as int));
    } else {
        assert(placeholder_at(t, i) is None);
        assert(placeholder_at(t, i + 1) is None);
        lemma_render_from_no_placeholder(t, i + 1, dx, dy, da, scale);
        assert(seq![t[i]] + t.subrange(i + 1, t.len() as int) =~= t.subrange(i, t.len() as int));
    }
}

/// Law: rendering a template in which no placeholder occurs returns the
/// template unchanged, whatever the context values are.
pub proof fn lemma_render_no_placeholder(t: Seq<char>, dx: int, dy: int, da: int, scale: int)
    requires
        !contains_placeholder(t),
    ensures
        spec_render(t, dx, dy, da, scale) == t,
{
    lemma_render_from_no_placeholder(t, 0, dx, dy, da, scale);
    assert(t.subrange(0, t.len() as int) =~= t);
}

fn digit_str(d: u64) -> (s: &'static str)
    requires
        d < 10,
    ensures
        s@ =~= seq![dec_digit(d as int)],
{
    proof {
        reveal_strlit("0");
        reveal_strlit("1");
        reveal_strlit("2");
        reveal_strlit("3");
        reveal_strlit("4");
        reveal_strlit("5");
        reveal_strlit("6");
        reveal_strlit("7");
        reveal_strlit("8");
        reveal_strlit("9");
    }
    if d == 0 {
        "0"
    } else if d == 1 {
        "1"
    } else if d == 2 {
        "2"
    } else if d == 3 {
        "3"
    } else if d == 4 {
        "4"
    } else if d == 5 {
        "5"
    } else if d == 6 {
        "6"
    } else if d == 7 {
        "7"
    } else if d == 8 {
        "8"
    } else {
        "9"
    }
}

fn push_digits(n: u64, out: &mut String)
    ensures
        final(out)@ == old(out)@ + dec_digits(n as int),
    decreases n,
{
    if n < 10 {
        let s = digit_str(n);
        out.append(s);
        proof {
            assert(out@ =~= old(out)@ + dec_digits(n as int));
        }
    } else {
        push_digits(n / 10, out);
        let s = digit_str(n % 10);
        out.append(s);
        proof {
            assert(out@ =~= old(out)@ + dec_digits(n as int));
        }
    }
}

/// Formats a value carried in thousandths as a decimal string.
pub fn format_milli(v: i64) -> (s: String)
    ensures
        s@ == fmt_milli(v as int),
{
    let mut out = String::new();
    if v < 0 {
        out.append("-");
        proof {
            reveal_strlit("-");
            assert(out@ =~= seq!['-']);
        }
    }
    let mag = abs_mag(v);
    push_digits(mag / 1000, &mut out);
    let r = mag % 1000;
    if r != 0 {
        out.append(".");
        proof {
            reveal_strlit(".");
        }
        let d1 = digit_str(r / 100);
        out.append(d1);
        if r % 100 != 0 {
            let d2 = digit_str((r / 10) % 10);
            out.append(d2);
            if r % 10 != 0 {
                let d3 = digit_str(r % 10);
                out.append(d3);
            }
        }
    }
    proof {
        assert(out@ =~= fmt_milli(v as int));
    }
    out
}

fn str_eq_at(s: &str, i: usize, pat: &str) -> (r: bool)
    ensures
        r == starts_with(s@, i as int, pat@),
{
    let sn = s.unicode_len();
    let pn = pat.unicode_len();
    if i > sn || pn > sn - i {
        return false;
    }
    let mut j: usize = 0;
    while j < pn
        invariant
            j <= pn,
            pn == pat@.len(),
            sn == s@.len(),
            i + pn <= sn,
            forall|k: int| 0 <= k < j ==> s@[i + k] == pat@[k],
        decreases pn - j,
    {
        if s.get_char(i + j) != pat.get_char(j) {
            proof {
                if starts_with(s@, i as int, pat@) {
                    assert(s@.subrange(i as int, i + pat@.len() as int)[j as int] == pat@[j as int]);
                }
            }
            return false;
        }
        j += 1;
    }
    proof {
        assert(s@.subrange(i as int, i + pat@.len() as int) =~= pat@);
    }
    true
}

fn match_placeholder(s: &str, i: usize) -> (p: Option<Placeholder>)
    ensures
        p == placeholder_at(s@, i as int),
{
    proof {
        reveal_strlit("$delta_x");
        reveal_strlit("$delta_y");
        reveal_strlit("$scale");
        reveal_strlit("$delta_angle");
        assert("$delta_x"@ =~= placeholder_text(Placeholder::DeltaX));
        assert("$delta_y"@ =~= placeholder_text(Placeholder::DeltaY));
        assert("$scale"@ =~= placeholder_text(Placeholder::Scale));
        assert("$delta_angle"@ =~= placeholder_text(Placeholder::DeltaAngle));
    }
    if str_eq_at(s, i, "$delta_x") {
        Some(Placeholder::DeltaX)
    } else if str_eq_at(s, i, "$delta_y") {
        Some(Placeholder::DeltaY)
    } else if str_eq_at(s, i, "$scale") {
        Some(Placeholder::Scale)
    } else if str_eq_at(s, i, "$delta_angle") {
        Some(Placeholder::DeltaAngle)
    } else {
        None
    }
}

fn placeholder_len(p: Placeholder) -> (l: usize)
    ensures
        l as int == placeholder_text(p).len(),
{
    match p {
        Placeholder::DeltaX => 8,
        Placeholder::DeltaY => 8,
        Placeholder::Scale => 6,
        Placeholder::DeltaAngle => 12,
    }
}

fn select_value(p: Placeholder, a: &ExecArgs) -> (v: i64)
    ensures
        v as int == placeholder_value(p, a.dx as int, a.dy as int, a.da as int, a.scale as int),
{
    match p {
        Placeholder::DeltaX => a.dx,
        Placeholder::DeltaY => a.dy,
        Placeholder::Scale => a.scale,
        Placeholder::DeltaAngle => a.da,
    }
}

/// Renders a command template against its motion context: every unescaped
/// placeholder is replaced by its formatted value, everything else passes
/// through unchanged.
pub fn render_command(exec_args: &ExecArgs) -> (r: String)
    ensures
        r@ == spec_render_args(*exec_args),
{
    let args: &str = exec_args.args.as_str();
    let ghost t = args@;
    let ghost gdx = exec_args.dx as int;
    let ghost gdy = exec_args.dy as int;
    let ghost gda = exec_args.da as int;
    let ghost gsc = exec_args.scale as int;
    let n = args.unicode_len();
    let mut out = String::new();
    let mut i: usize = 0;
    while i < n
        invariant
            i <= n,
            n == t.len(),
            t == args@,
            gdx == exec_args.dx as int,
            gdy == exec_args.dy as int,
            gda == exec_args.da as int,
            gsc == exec_args.scale as int,
            out@ + spec_render_from(t, i as int, gdx, gdy, gda, gsc) == spec_render_from(
                t,
                0,
                gdx,
                gdy,
                gda,
                gsc,
            ),
        decreases n - i,
    {
        let ghost pre = out@;
        let ghost i0 = i as int;
        let c = args.get_char(i);
        let escaped = if c == '\\' {
            match_placeholder(args, i + 1)
        } else {
            None
        };
        if let Some(p) = escaped {
            let l = placeholder_len(p);
            let piece = args.substring_char(i, i + 1 + l);
            out.append(piece);
            i = i + 1 + l;
            proof {
                assert(spec_render_from(t, i0, gdx, gdy, gda, gsc) == t.subrange(
                    i0,
                    i0 + 1 + placeholder_text(p).len(),
                ) + spec_render_from(t, i as int, gdx, gdy, gda, gsc));
                assert((pre + piece@) + spec_render_from(t, i as int, gdx, gdy, gda, gsc) =~= pre
                    + (piece@ + spec_render_from(t, i as int, gdx, gdy, gda, gsc)));
            }
        } else {
            let found = match_placeholder(args, i);
            if let Some(p) = found {
                let l = placeholder_len(p);
                let v = select_value(p, exec_args);
                let f = format_milli(v);
                out.append(f.as_str());
                i = i + l;
                proof {
                    assert(spec_render_from(t, i0, gdx, gdy, gda, gsc) == fmt_milli(
                        placeholder_value(p, gdx, gdy, gda, gsc),
                    ) + spec_render_from(t, i as int, gdx, gdy, gda, gsc));
                    assert((pre + f@) + spec_render_from(t, i as int, gdx, gdy, gda, gsc) =~= pre
                        + (f@ + spec_render_from(t, i as int, gdx, gdy, gda, gsc)));
                }
            } else {
                let piece = args.substring_char(i, i + 1);
                out.append(piece);
                i = i + 1;
                proof {
                    assert(piece@ =~= seq![t[i0]]);
                    assert(spec_render_from(t, i0, gdx, gdy, gda, gsc) == seq![t[i0]]
                        + spec_render_from(t, i as int, gdx, gdy, gda, gsc));
                    assert((pre + piece@) + spec_render_from(t, i as int, gdx, gdy, gda, gsc) =~= pre
                        + (piece@ + spec_render_from(t, i as int, gdx, gdy, gda, gsc)));
                }
            }
        }
    }
    proof {
        assert(out@ + spec_render_from(t, n as int, gdx, gdy, gda, gsc) =~= out@);
    }
    out
}

} // verus!
