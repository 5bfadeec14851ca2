//! Building text: decimal numbers and labelled lines.
use vstd::prelude::*;

verus! {

/// The text of one decimal digit.
pub open spec fn digit_text(d: nat) -> Seq<char> {
    if d == 0 {
        "0"@
    } else if d == 1 {
        "1"@
    } else if d == 2 {
        "2"@
    } else if d == 3 {
        "3"@
    } else if d == 4 {
        "4"@
    } else if d == 5 {
        "5"@
    } else if d == 6 {
        "6"@
    } else if d == 7 {
        "7"@
    } else if d == 8 {
        "8"@
    } else {
        "9"@
    }
}

/// `n` written in decimal, without leading zeros.
pub open spec fn decimal(n: nat) -> Seq<char>
    decreases n,
{
    if n < 10 {
        digit_text(n)
    } else {
        decimal(n / 10) + digit_text(n % 10)
    }
}

/// One line of a report: the label, the value, the description when asked for, a newline.
pub open spec fn field_text(label: Seq<char>, v: nat, note: Seq<char>, descriptive: bool) -> Seq<
    char,
> {
    label + decimal(v) + (if descriptive {
        " | "@ + note
    } else {
        Seq::empty()
    }) + "\n"@
}

fn digit_str(d: u64) -> (r: &'static str)
    requires
        d < 10,
    ensures
        r@ == digit_text(d as nat),
{
    if d == 0 {
        "0"
    } else if d == 1 {
        "1"
    } else if d == 2 {
        "2"
    } else if d == 3 {
        "3"
    } else if d == 4 {
        "4"
    } else if d == 5 {
        "5"
    } else if d == 6 {
        "6"
    } else if d == 7 {
        "7"
    } else if d == 8 {
        "8"
    } else {
        "9"
    }
}

/// Appends `n` in decimal.
pub fn push_decimal(out: &mut String, n: u64)
    ensures
        final(out)@ == old(out)@ + decimal(n as nat),
    decreases n,
{
    if n >= 10 {
        push_decimal(out, n / 10);
    }
    out.append(digit_str(n % 10));
    assert(out@ =~= old(out)@ + decimal(n as nat));
}

/// Appends one labelled line (see `field_text`).
pub fn push_field(out: &mut String, label: &str, v: u64, note: &str, descriptive: bool)
    ensures
        final(out)@ == old(out)@ + field_text(label@, v as nat, note@, descriptive),
{
    out.append(label);
    push_decimal(out, v);
    if descriptive {
        out.append(" | ");
        out.append(note);
    }
    out.append("\n");
    assert(out@ =~= old(out)@ + field_text(label@, v as nat, note@, descriptive));
}

} // verus!
