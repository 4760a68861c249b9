//! Text primitives: padding, centering, truncation and decimal rendering,
//! all measured in characters.
use vstd::prelude::*;

verus! {

/// `n` copies of the character `c`.
pub open spec fn repeat(c: char, n: nat) -> Seq<char> {
    Seq::new(n, |_i: int| c)
}

/// `s` centered in a field of `width` characters filled with `fill`; the
/// odd filler character, if any, goes to the right. Text at least as wide
/// as the field is left as it is.
pub open spec fn centered(s: Seq<char>, width: nat, fill: char) -> Seq<char> {
    if s.len() >= width {
        s
    } else {
        let gap = (width - s.len()) as nat;
        repeat(fill, gap / 2) + s + repeat(fill, (gap - gap / 2) as nat)
    }
}

/// `s` cut to at most `width` characters.
pub open spec fn clipped(s: Seq<char>, width: nat) -> Seq<char> {
    if s.len() > width {
        s.subrange(0, width as int)
    } else {
        s
    }
}

/// `s` cut to `width` characters and centered in a field of spaces of
/// exactly that width.
pub open spec fn cell_centered(s: Seq<char>, width: nat) -> Seq<char> {
    centered(clipped(s, width), width, ' ')
}

/// `s` cut to `width` characters and pushed to the right of a field of
/// spaces of exactly that width.
pub open spec fn cell_right(s: Seq<char>, width: nat) -> Seq<char> {
    let t = clipped(s, width);
    repeat(' ', (width - t.len()) as nat) + t
}

/// The character of a decimal digit.
pub open spec fn digit_char(d: nat) -> char {
    "0123456789"@[d as int]
}

/// Decimal digits of `n`, most significant first, without leading zeros.
pub open spec fn digits(n: nat) -> Seq<char>
    decreases n,
{
    if n < 10 {
        seq![digit_char(n)]
    } else {
        digits(n / 10).push(digit_char(n % 10))
    }
}

/// Decimal text of an integer, with a leading `-` when it is negative.
pub open spec fn decimal(i: int) -> Seq<char> {
    if i < 0 {
        seq!['-'] + digits((-i) as nat)
    } else {
        digits(i as nat)
    }
}

/// A cell is exactly as wide as its field.
pub proof fn lemma_cell_widths(s: Seq<char>, width: nat)
    ensures
        cell_centered(s, width).len() == width,
        cell_right(s, width).len() == width,
{
}

/// Appends `n` copies of the one-character text `piece` to `out`.
pub fn push_copies(out: &mut String, piece: &str, n: usize)
    requires
        piece@.len() == 1,
    ensures
        final(out)@ == old(out)@ + repeat(piece@[0], n as nat),
{
    let ghost start = out@;
    let mut i: usize = 0;
    while i < n
        invariant
            i <= n,
            piece@.len() == 1,
            out@ == start + repeat(piece@[0], i as nat),
        decreases n - i,
    {
        out.append(piece);
        i = i + 1;
        assert(out@ =~= start + repeat(piece@[0], i as nat));
    }
}

/// Appends the characters of `s` from `from` up to `to`.
fn push_range(out: &mut String, s: &str, from: usize, to: usize)
    requires
        from <= to <= s@.len(),
    ensures
        final(out)@ == old(out)@ + s@.subrange(from as int, to as int),
{
    out.append(s.substring_char(from, to));
}

/// `s` centered in `width` characters of `fill`, as `{:^width$}` lays it out.
pub fn center(s: &str, width: usize, fill: &str) -> (r: String)
    requires
        fill@.len() == 1,
    ensures
        r@ == centered(s@, width as nat, fill@[0]),
{
    let len = s.unicode_len();
    let mut out = String::new();
    if len >= width {
        out.append(s);
    } else {
        let gap = width - len;
        push_copies(&mut out, fill, gap / 2);
        out.append(s);
        push_copies(&mut out, fill, gap - gap / 2);
    }
    out
}

/// A table cell: `s` cut to `width` characters and centered among spaces.
pub fn cell_center(s: &str, width: usize) -> (r: String)
    ensures
        r@ == cell_centered(s@, width as nat),
        r@.len() == width,
{
    proof {
        reveal_strlit(" ");
    }
    let len = s.unicode_len();
    let cut = if len > width { width } else { len };
    let mut t = String::new();
    push_range(&mut t, s, 0, cut);
    assert(t@ =~= clipped(s@, width as nat));
    center(t.as_str(), width, " ")
}

/// A table cell: `s` cut to `width` characters and aligned right among spaces.
pub fn cell_right_aligned(s: &str, width: usize) -> (r: String)
    ensures
        r@ == cell_right(s@, width as nat),
        r@.len() == width,
{
    proof {
        reveal_strlit(" ");
    }
    let len = s.unicode_len();
    let cut = if len > width { width } else { len };
    let mut out = String::new();
    push_copies(&mut out, " ", width - cut);
    push_range(&mut out, s, 0, cut);
    assert(out@ =~= cell_right(s@, width as nat));
    out
}

/// The decimal text of `n`.
pub fn decimal_text(n: u64) -> (r: String)
    ensures
        r@ == digits(n as nat),
    decreases n,
{
    proof {
        reveal_strlit("0123456789");
    }
    let table = "0123456789";
    let d = (n % 10) as usize;
    let mut out = if n < 10 {
        String::new()
    } else {
        decimal_text(n / 10)
    };
    push_range(&mut out, table, d, d + 1);
    assert(out@ =~= digits(n as nat));
    out
}

/// The decimal text of `i`, with a leading `-` when it is negative.
pub fn signed_decimal_text(i: i64) -> (r: String)
    ensures
        r@ == decimal(i as int),
{
    if i < 0 {
        let magnitude: u64 = ((-(i + 1)) as u64) + 1;
        let mut out = String::from_str("-");
        proof {
            reveal_strlit("-");
        }
        out.append(decimal_text(magnitude).as_str());
        out
    } else {
        decimal_text(i as u64)
    }
}

} // verus!
