use vstd::prelude::*;

verus! {

/// The character of the decimal digit `d` (meant for `d < 10`).
pub open spec fn digit_char(d: nat) -> char {
    ((48 + d) as u8) as char
}

/// Decimal digits of `n`, most significant first, without leading zeros.
pub open spec fn decimal(n: nat) -> Seq<char>
    decreases n,
{
    if n < 10 {
        seq![digit_char(n)]
    } else {
        decimal(n / 10).push(digit_char(n % 10))
    }
}

/// `s` left-padded with zeros to at least two characters, as `{:02}` does.
pub open spec fn pad2(s: Seq<char>) -> Seq<char> {
    if s.len() < 2 {
        seq!['0'] + s
    } else {
        s
    }
}

/// The `MM:SS` label of a recording that has run for `seconds`: the minutes
/// and the remaining seconds, each written with at least two digits.
pub open spec fn recording_label(seconds: nat) -> Seq<char> {
    pad2(decimal(seconds / 60)) + seq![':'] + pad2(decimal(seconds % 60))
}

proof fn lemma_digit_char_injective(a: nat, b: nat)
    requires
        a < 10,
        b < 10,
        digit_char(a) == digit_char(b),
    ensures
        a == b,
{
}

proof fn lemma_decimal_len(n: nat)
    ensures
        decimal(n).len() >= 1,
        decimal(n).len() == 1 <==> n < 10,
        n < 100 ==> decimal(n).len() <= 2,
    decreases n,
{
    if n >= 10 {
        lemma_decimal_len(n / 10);
    }
}

proof fn lemma_decimal_leading_digit(n: nat)
    requires
        n >= 10,
    ensures
        decimal(n)[0] != '0',
    decreases n,
{
    lemma_decimal_len(n / 10);
    if n / 10 >= 10 {
        lemma_decimal_leading_digit(n / 10);
    } else {
        assert(decimal(n / 10) == seq![digit_char(n / 10)]);
        assert(digit_char(n / 10) != '0');
    }
}

proof fn lemma_decimal_injective(a: nat, b: nat)
    requires
        decimal(a) == decimal(b),
    ensures
        a == b,
    decreases a,
{
    lemma_decimal_len(a);
    lemma_decimal_len(b);
    if a < 10 {
        assert(decimal(a)[0] == digit_char(a));
        assert(decimal(b)[0] == digit_char(b));
        lemma_digit_char_injective(a, b);
    } else {
        let da = decimal(a);
        let db = decimal(b);
        assert(da.last() == digit_char(a % 10));
        assert(db.last() == digit_char(b % 10));
        lemma_digit_char_injective(a % 10, b % 10);
        assert(da.drop_last() == decimal(a / 10));
        assert(db.drop_last() == decimal(b / 10));
        lemma_decimal_injective(a / 10, b / 10);
    }
}

proof fn lemma_pad2_decimal_injective(a: nat, b: nat)
    requires
        pad2(decimal(a)) == pad2(decimal(b)),
    ensures
        a == b,
{
    lemma_decimal_len(a);
    lemma_decimal_len(b);
    if a < 10 && b < 10 {
        assert(pad2(decimal(a))[1] == digit_char(a));
        assert(pad2(decimal(b))[1] == digit_char(b));
        lemma_digit_char_injective(a, b);
    } else if a < 10 {
        lemma_decimal_leading_digit(b);
        assert(pad2(decimal(a))[0] == '0');
    } else if b < 10 {
        lemma_decimal_leading_digit(a);
        assert(pad2(decimal(b))[0] == '0');
    } else {
        lemma_decimal_injective(a, b);
    }
}

/// The seconds field of a recording label is always exactly two digits:
/// the tens and the units of the seconds within the current minute.
pub proof fn lemma_recording_label_seconds_field(seconds: nat)
    ensures
        pad2(decimal(seconds % 60)) == seq![
            digit_char((seconds % 60) / 10),
            digit_char(seconds % 10),
        ],
        recording_label(seconds).len() == pad2(decimal(seconds / 60)).len() + 3,
{
    let r: nat = seconds % 60;
    lemma_decimal_len(r);
    assert(r % 10 == seconds % 10);
    if r < 10 {
        assert(pad2(decimal(r)) =~= seq!['0', digit_char(r)]);
        assert(digit_char(r / 10) == '0');
    } else {
        assert(decimal(r / 10) == seq![digit_char(r / 10)]);
        assert(pad2(decimal(r)) =~= seq![digit_char(r / 10), digit_char(r % 10)]);
    }
}

/// Two different recording times never show the same label.
pub proof fn lemma_recording_label_injective(a: nat, b: nat)
    requires
        recording_label(a) == recording_label(b),
    ensures
        a == b,
{
    lemma_recording_label_seconds_field(a);
    lemma_recording_label_seconds_field(b);
    let la = recording_label(a);
    let lb = recording_label(b);
    let pa = pad2(decimal(a / 60));
    let pb = pad2(decimal(b / 60));
    let qa = pad2(decimal(a % 60));
    let qb = pad2(decimal(b % 60));
    assert(pa.len() == pb.len());
    assert(la.subrange(0, pa.len() as int) =~= pa);
    assert(lb.subrange(0, pb.len() as int) =~= pb);
    assert(la.subrange(pa.len() + 1int, la.len() as int) =~= qa);
    assert(lb.subrange(pb.len() + 1int, lb.len() as int) =~= qb);
    lemma_pad2_decimal_injective(a / 60, b / 60);
    lemma_pad2_decimal_injective(a % 60, b % 60);
}

fn digit_str(d: u64) -> (s: &'static str)
    requires
        d < 10,
    ensures
        s@ == seq![digit_char(d as nat)],
{
    proof {
        reveal_strlit("0");
        reveal_strlit("1");
        reveal_strlit("2");
        reveal_strlit("3");
        reveal_strlit("4");
        reveal_strlit("5");
        reveal_strlit("6");
        reveal_strlit("7");
        reveal_strlit("8");
        reveal_strlit("9");
    }
    if d == 0 {
        "0"
    } else if d == 1 {
        "1"
    } else if d == 2 {
        "2"
    } else if d == 3 {
        "3"
    } else if d == 4 {
        "4"
    } else if d == 5 {
        "5"
    } else if d == 6 {
        "6"
    } else if d == 7 {
        "7"
    } else if d == 8 {
        "8"
    } else {
        "9"
    }
}

/// Appends the decimal digits of `n` to `out`.
pub fn push_decimal(out: &mut String, n: u64)
    ensures
        final(out)@ == old(out)@ + decimal(n as nat),
    decreases n,
{
    if n >= 10 {
        push_decimal(out, n / 10);
    }
    out.append(digit_str(n % 10));
}

/// Appends `n` in decimal, left-padded with zeros to two digits.
pub fn push_decimal_pad2(out: &mut String, n: u64)
    ensures
        final(out)@ == old(out)@ + pad2(decimal(n as nat)),
{
    proof {
        lemma_decimal_len(n as nat);
        reveal_strlit("0");
    }
    if n < 10 {
        out.append("0");
    }
    push_decimal(out, n);
    assert(out@ =~= old(out)@ + pad2(decimal(n as nat)));
}

/// The `MM:SS` text shown while a recording runs, for the number of seconds
/// it has run so far.
pub fn recording_time_label(seconds: u64) -> (label: String)
    ensures
        label@ == recording_label(seconds as nat),
{
    let mut label = String::new();
    push_decimal_pad2(&mut label, seconds / 60);
    proof {
        reveal_strlit(":");
    }
    label.append(":");
    push_decimal_pad2(&mut label, seconds % 60);
    assert(label@ =~= recording_label(seconds as nat));
    label
}

/// Whether two strings hold the same characters.
pub fn same_text(a: &str, b: &str) -> (same: bool)
    ensures
        same == (a@ == b@),
{
    let a_owned = a.to_owned();
    let b_owned = b.to_owned();
    a_owned == b_owned
}

/// `head` followed by `tail`, as a new string.
pub fn joined(head: &str, tail: &str) -> (text: String)
    ensures
        text@ == head@ + tail@,
{
    let mut text = head.to_owned();
    text.append(tail);
    text
}

} // verus!
