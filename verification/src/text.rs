//! Numbers and labels as text, and the text of the transform shader.

use vstd::prelude::*;
use vstd::string::*;

verus! {

// ── Numbers ──

/// A decimal digit.
pub open spec fn digit(d: nat) -> char {
    if d == 0 {
        '0'
    } else if d == 1 {
        '1'
    } else if d == 2 {
        '2'
    } else if d == 3 {
        '3'
    } else if d == 4 {
        '4'
    } else if d == 5 {
        '5'
    } else if d == 6 {
        '6'
    } else if d == 7 {
        '7'
    } else if d == 8 {
        '8'
    } else {
        '9'
    }
}

/// A number in decimal, without leading zeros.
pub open spec fn decimal(n: nat) -> Seq<char>
    decreases n,
{
    if n < 10 {
        seq![digit(n)]
    } else {
        decimal(n / 10).push(digit(n % 10))
    }
}

/// A decimal digit as a text.
fn digit_text(d: u32) -> (r: &'static str)
    requires
        d < 10,
    ensures
        r@ == seq![digit(d as nat)],
{
    proof {
        reveal_strlit("0");
        reveal_strlit("1");
        reveal_strlit("2");
        reveal_strlit("3");
        reveal_strlit("4");
        reveal_strlit("5");
        reveal_strlit("6");
        reveal_strlit("7");
        reveal_strlit("8");
        reveal_strlit("9");
    }
    let r: &'static str = match d {
        0 => "0",
        1 => "1",
        2 => "2",
        3 => "3",
        4 => "4",
        5 => "5",
        6 => "6",
        7 => "7",
        8 => "8",
        _ => "9",
    };
    assert(r@ =~= seq![digit(d as nat)]);
    r
}

/// Appends a number in decimal.
pub fn append_decimal(text: &mut String, n: u32)
    ensures
        final(text)@ == old(text)@ + decimal(n as nat),
    decreases n,
{
    if n >= 10 {
        append_decimal(text, n / 10);
    }
    text.append(digit_text(n % 10));
    assert(text@ =~= old(text)@ + decimal(n as nat));
}

/// The frame size and the camera's size, for display.
pub open spec fn resolution_text(width: u32, height: u32, cam_w: u32, cam_h: u32) -> Seq<char> {
    decimal(width as nat) + "x"@ + decimal(height as nat) + " cam "@ + decimal(cam_w as nat) + "x"@
        + decimal(cam_h as nat)
}

/// The frame size and the camera's size, for display.
pub fn resolution_label(width: u32, height: u32, cam_w: u32, cam_h: u32) -> (r: String)
    ensures
        r@ == resolution_text(width, height, cam_w, cam_h),
        r@ == decimal(width as nat) + "x"@ + decimal(height as nat) + " cam "@ + decimal(
            cam_w as nat,
        ) + "x"@ + decimal(cam_h as nat),
{
    let mut r: String = String::new();
    append_decimal(&mut r, width);
    r.append("x");
    append_decimal(&mut r, height);
    r.append(" cam ");
    append_decimal(&mut r, cam_w);
    r.append("x");
    append_decimal(&mut r, cam_h);
    assert(r@ =~= resolution_text(width, height, cam_w, cam_h));
    r
}

/// The value of a decimal digit.
pub open spec fn digit_value(c: char) -> int {
    c as int - '0' as int
}

/// The number that digits stand for.
pub open spec fn value(digits: Seq<char>) -> int
    decreases digits.len(),
{
    if digits.len() == 0 {
        0
    } else {
        10 * value(digits.drop_last()) + digit_value(digits.last())
    }
}

/// The decimal of a number stands for that number, consists of digits, and does not begin with
/// a zero unless the number is zero.
pub proof fn lemma_decimal_value(n: nat)
    ensures
        value(decimal(n)) == n,
        forall|i: int|
            0 <= i < decimal(n).len() ==> 0 <= digit_value(#[trigger] decimal(n)[i]) <= 9,
        n > 0 ==> decimal(n)[0] != '0',
        n == 0 ==> decimal(n) =~= seq!['0'],
    decreases n,
{
    let d = decimal(n);
    if n < 10 {
        assert(d.drop_last() =~= Seq::<char>::empty());
        assert(value(d) == 10 * value(d.drop_last()) + digit_value(d.last()));
    } else {
        lemma_decimal_value(n / 10);
        lemma_decimal_length(n / 10);
        assert(d.drop_last() =~= decimal(n / 10));
        assert forall|i: int| 0 <= i < d.len() implies 0 <= digit_value(#[trigger] d[i]) <= 9 by {
            if i < d.len() - 1 {
                assert(d[i] == decimal(n / 10)[i]);
            }
        }
    }
}

/// The label of a resolution: the four numbers, all of them in full, with the separators
/// between them.
pub proof fn lemma_resolution_text(width: u32, height: u32, cam_w: u32, cam_h: u32)
    ensures
        ({
            let t = resolution_text(width, height, cam_w, cam_h);
            let a = decimal(width as nat).len() as int;
            let b = decimal(height as nat).len() as int;
            let c = decimal(cam_w as nat).len() as int;
            let d = decimal(cam_h as nat).len() as int;
            &&& t.len() == a + b + c + d + 7
            &&& value(t.subrange(0, a)) == width
            &&& t.subrange(a, a + 1) == "x"@
            &&& value(t.subrange(a + 1, a + 1 + b)) == height
            &&& t.subrange(a + 1 + b, a + b + 6) == " cam "@
            &&& value(t.subrange(a + b + 6, a + b + c + 6)) == cam_w
            &&& t.subrange(a + b + c + 6, a + b + c + 7) == "x"@
            &&& value(t.subrange(a + b + c + 7, a + b + c + d + 7)) == cam_h
        }),
{
    reveal_strlit("x");
    reveal_strlit(" cam ");
    lemma_decimal_value(width as nat);
    lemma_decimal_value(height as nat);
    lemma_decimal_value(cam_w as nat);
    lemma_decimal_value(cam_h as nat);
    let t = resolution_text(width, height, cam_w, cam_h);
    let a = decimal(width as nat).len() as int;
    let b = decimal(height as nat).len() as int;
    let c = decimal(cam_w as nat).len() as int;
    let d = decimal(cam_h as nat).len() as int;
    assert(t.subrange(0, a) =~= decimal(width as nat));
    assert(t.subrange(a, a + 1) =~= "x"@);
    assert(t.subrange(a + 1, a + 1 + b) =~= decimal(height as nat));
    assert(t.subrange(a + 1 + b, a + b + 6) =~= " cam "@);
    assert(t.subrange(a + b + 6, a + b + c + 6) =~= decimal(cam_w as nat));
    assert(t.subrange(a + b + c + 6, a + b + c + 7) =~= "x"@);
    assert(t.subrange(a + b + c + 7, a + b + c + d + 7) =~= decimal(cam_h as nat));
}

/// Different numbers have different decimals.
pub proof fn lemma_decimal_determines(m: nat, n: nat)
    requires
        decimal(m) == decimal(n),
    ensures
        m == n,
    decreases m,
{
    lemma_decimal_length(m);
    lemma_decimal_length(n);
    let (a, b) = (decimal(m), decimal(n));
    if m < 10 {
        assert(a.len() == 1);
        if n >= 10 {
            lemma_decimal_length(n / 10);
            assert(b.len() > 1);
        }
        assert(a[0] == b[0]);
    } else {
        lemma_decimal_length(m / 10);
        if n < 10 {
            assert(b.len() == 1);
        } else {
            assert(a.drop_last() =~= decimal(m / 10));
            assert(b.drop_last() =~= decimal(n / 10));
            lemma_decimal_determines(m / 10, n / 10);
            assert(a.last() == b.last());
        }
    }
}

/// A decimal is never empty.
proof fn lemma_decimal_length(n: nat)
    ensures
        decimal(n).len() >= 1,
{
}

// ── The transform shader ──

/// `pattern` stands in `text` at position `i`.
pub open spec fn occurs(text: Seq<char>, pattern: Seq<char>, i: int) -> bool {
    &&& 0 <= i
    &&& i + pattern.len() <= text.len()
    &&& text.subrange(i, i + pattern.len()) == pattern
}

/// `text` with every occurrence of `pattern` replaced, from left to right.
pub open spec fn replaced(text: Seq<char>, pattern: Seq<char>, with: Seq<char>) -> Seq<char>
    decreases text.len(),
{
    if pattern.len() == 0 || text.len() < pattern.len() {
        text
    } else if occurs(text, pattern, 0) {
        with + replaced(text.skip(pattern.len() as int), pattern, with)
    } else {
        seq![text[0]] + replaced(text.skip(1), pattern, with)
    }
}

/// Calls `str::replace`, which replaces all matches of a text with another text: the disjoint
/// ones, of overlapping matches the first.  The text that is looked for is not empty.
#[verifier::external_body]
fn replace_all(text: &str, pattern: &str, with: &str) -> (r: String)
    requires
        pattern@.len() > 0,
    ensures
        r@ == replaced(text@, pattern@, with@),
{
    text.replace(pattern, with)
}

/// The transform shader for transforms of up to `max_fft` elements: the template with the size
/// of the shared memory filled in.
pub fn fft_shader_source(template: &str, max_fft: u32) -> (r: String)
    ensures
        r@ == replaced(template@, "/*SHARED_SIZE*/"@, decimal(max_fft as nat)),
{
    proof {
        reveal_strlit("/*SHARED_SIZE*/");
    }
    let mut size: String = String::new();
    append_decimal(&mut size, max_fft);
    assert(size@ =~= decimal(max_fft as nat));
    replace_all(template, "/*SHARED_SIZE*/", size.as_str())
}

/// Where nothing occurs, nothing is replaced.
pub proof fn lemma_replaced_nothing(text: Seq<char>, pattern: Seq<char>, with: Seq<char>)
    requires
        forall|i: int| !occurs(text, pattern, i),
    ensures
        replaced(text, pattern, with) == text,
    decreases text.len(),
{
    if pattern.len() > 0 && text.len() >= pattern.len() {
        assert(!occurs(text, pattern, 0));
        let rest = text.skip(1);
        assert forall|i: int| !occurs(rest, pattern, i) by {
            assert(!occurs(text, pattern, i + 1));
            if 0 <= i && i + pattern.len() <= rest.len() {
                assert(rest.subrange(i, i + pattern.len()) =~= text.subrange(
                    i + 1,
                    i + 1 + pattern.len(),
                ));
            }
        }
        lemma_replaced_nothing(rest, pattern, with);
        assert(seq![text[0]] + rest =~= text);
    }
}

/// Where a template has its pattern at one place only, that place is filled in and the rest is
/// kept.
pub proof fn lemma_replaced_once(
    before: Seq<char>,
    pattern: Seq<char>,
    after: Seq<char>,
    with: Seq<char>,
)
    requires
        pattern.len() > 0,
        forall|i: int| occurs(before + pattern + after, pattern, i) ==> i == before.len(),
    ensures
        replaced(before + pattern + after, pattern, with) == before + with + after,
    decreases before.len(),
{
    let text = before + pattern + after;
    let n = pattern.len() as int;
    if before.len() == 0 {
        assert(text.subrange(0, n) =~= pattern);
        assert(text.skip(n) =~= after);
        assert forall|i: int| !occurs(after, pattern, i) by {
            if 0 <= i && i + n <= after.len() {
                assert(!occurs(text, pattern, i + n));
                assert(after.subrange(i, i + n) =~= text.subrange(i + n, i + n + n));
            }
        }
        lemma_replaced_nothing(after, pattern, with);
        assert(with + after =~= before + with + after);
    } else {
        assert(!occurs(text, pattern, 0));
        let rest = before.skip(1) + pattern + after;
        assert(text.skip(1) =~= rest);
        assert forall|i: int| occurs(rest, pattern, i) implies i == before.skip(1).len() by {
            assert(rest.subrange(i, i + n) =~= text.subrange(i + 1, i + 1 + n));
            assert(occurs(text, pattern, i + 1));
        }
        lemma_replaced_once(before.skip(1), pattern, after, with);
        assert(seq![text[0]] + (before.skip(1) + with + after) =~= before + with + after);
    }
}

} // verus!
