//! Deterministic identifiers for DOM anchors and selection inputs.

use vstd::prelude::*;

verus! {

/// Characters kept verbatim in an identifier; every other one becomes `_`.
pub open spec fn is_id_char(c: char) -> bool {
    ('a' <= c && c <= 'z') || ('A' <= c && c <= 'Z') || ('0' <= c && c <= '9')
}

pub open spec fn sanitize(s: Seq<char>) -> Seq<char> {
    s.map_values(|c: char| if is_id_char(c) { c } else { '_' })
}

/// The identifier of `label` within the namespace `kind`.
pub open spec fn slug(kind: Seq<char>, label: Seq<char>) -> Seq<char> {
    kind + seq!['_'] + sanitize(label)
}

pub open spec fn digit_char(d: nat) -> char {
    if d == 0 { '0' }
    else if d == 1 { '1' }
    else if d == 2 { '2' }
    else if d == 3 { '3' }
    else if d == 4 { '4' }
    else if d == 5 { '5' }
    else if d == 6 { '6' }
    else if d == 7 { '7' }
    else if d == 8 { '8' }
    else { '9' }
}

/// Decimal notation of `n`, without leading zeros.
pub open spec fn decimal(n: nat) -> Seq<char>
    decreases n,
{
    if n < 10 {
        seq![digit_char(n)]
    } else {
        decimal(n / 10).push(digit_char(n % 10))
    }
}

/// Appends the decimal notation of `n` to `s`.
pub fn push_decimal(s: &mut String, n: usize)
    ensures
        final(s)@ == old(s)@ + decimal(n as nat),
    decreases n,
{
    let digits = "0123456789";
    proof {
        reveal_strlit("0123456789");
    }
    if n >= 10 {
        push_decimal(s, n / 10);
    }
    let d = n % 10;
    let one = digits.substring_char(d, d + 1);
    assert(one@ =~= seq![digit_char(d as nat)]);
    s.append(one);
    assert(s@ =~= old(s)@ + decimal(n as nat));
}

/// Appends `label` to `s` with every character that is not an ASCII letter
/// or digit replaced by `_`.
pub fn push_sanitized(s: &mut String, label: &str)
    ensures
        final(s)@ == old(s)@ + sanitize(label@),
{
    let n = label.unicode_len();
    let mut i: usize = 0;
    while i < n
        invariant
            n == label@.len(),
            i <= n,
            s@ == old(s)@ + sanitize(label@.subrange(0, i as int)),
        decreases n - i,
    {
        let c = label.get_char(i);
        let keep = ('a' <= c && c <= 'z') || ('A' <= c && c <= 'Z') || ('0' <= c && c <= '9');
        let ghost prev = s@;
        if keep {
            let one = label.substring_char(i, i + 1);
            assert(one@ =~= seq![c]);
            s.append(one);
            assert(s@ =~= prev.push(c));
        } else {
            s.append("_");
            proof {
                reveal_strlit("_");
            }
            assert("_"@ =~= seq!['_']);
            assert(s@ =~= prev.push('_'));
        }
        assert(label@.subrange(0, i + 1) =~= label@.subrange(0, i as int).push(c));
        assert(sanitize(label@.subrange(0, i + 1)) =~= sanitize(label@.subrange(0, i as int)).push(
            if is_id_char(c) { c } else { '_' },
        ));
        assert(s@ =~= old(s)@ + sanitize(label@.subrange(0, i + 1)));
        i = i + 1;
    }
    assert(label@.subrange(0, n as int) =~= label@);
}

/// The identifier of `name` in the namespace `kind`: `kind`, an underscore,
/// then `name` with each character other than an ASCII letter or digit
/// replaced by `_`.
pub fn name_to_id(kind: &str, name: &str) -> (r: String)
    ensures
        r@ == slug(kind@, name@),
{
    let mut s = String::from_str(kind);
    s.append("_");
    proof {
        reveal_strlit("_");
    }
    push_sanitized(&mut s, name);
    s
}

} // verus!
