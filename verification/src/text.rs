//! Small text operations of std that vstd leaves unspecified.
use vstd::prelude::*;
use vstd::string::StrSliceExecFns;

verus! {

/// Calls `String::push`, which appends the character to the end of the string.
#[verifier::external_body]
pub fn push_char(s: &mut String, c: char)
    ensures
        final(s)@ == old(s)@.push(c),
{
    s.push(c);
}

/// The text that `str::to_lowercase` gives for a text: its Unicode lowercase
/// mapping (character by character, save the context rule for a final sigma).
pub uninterp spec fn lowercase_text(s: Seq<char>) -> Seq<char>;

/// Calls `str::to_lowercase`. Its result is named, not stated: it depends
/// on the argument alone.
#[verifier::external_body]
pub fn to_lowercase(s: &str) -> (r: String)
    ensures
        r@ == lowercase_text(s@),
{
    s.to_lowercase()
}

/// `pat` occurs in `hay` as a run of consecutive characters.
pub open spec fn contains_text(hay: Seq<char>, pat: Seq<char>) -> bool {
    exists|i: int|
        0 <= i && i + pat.len() <= hay.len() && #[trigger] hay.subrange(i, i + pat.len()) == pat
}

/// Whether `pat` occurs in `hay`.
pub fn has_text(hay: &str, pat: &str) -> (b: bool)
    ensures
        b == contains_text(hay@, pat@),
{
    let n = hay.unicode_len();
    let m = pat.unicode_len();
    if m > n {
        assert(!contains_text(hay@, pat@)) by {
            if contains_text(hay@, pat@) {
                let i = choose|i: int|
                    0 <= i && i + pat@.len() <= hay@.len() && #[trigger] hay@.subrange(i, i + pat@.len())
                        == pat@;
            }
        }
        return false;
    }
    let mut i: usize = 0;
    while i <= n - m
        invariant
            n == hay@.len(),
            m == pat@.len(),
            m <= n,
            i <= n - m + 1,
            forall|k: int| 0 <= k < i ==> #[trigger] hay@.subrange(k, k + m) != pat@,
        decreases n - i,
    {
        let mut j: usize = 0;
        let mut same = true;
        while j < m
            invariant
                n == hay@.len(),
                m == pat@.len(),
                i + m <= n,
                j <= m,
                same == forall|t: int| 0 <= t < j ==> hay@[i + t] == pat@[t],
            decreases m - j,
        {
            if hay.get_char(i + j) != pat.get_char(j) {
                same = false;
            }
            j = j + 1;
        }
        if same {
            assert(hay@.subrange(i as int, i + m) =~= pat@);
            return true;
        }
        assert(hay@.subrange(i as int, i + m) != pat@) by {
            let t = choose|t: int| 0 <= t < m && hay@[i + t] != pat@[t];
            assert(hay@.subrange(i as int, i + m)[t] == hay@[i + t]);
        }
        i = i + 1;
    }
    assert(!contains_text(hay@, pat@)) by {
        if contains_text(hay@, pat@) {
            let k = choose|k: int|
                0 <= k && k + pat@.len() <= hay@.len() && #[trigger] hay@.subrange(k, k + pat@.len()) == pat@;
            assert(k < i);
        }
    }
    false
}

/// The decimal digit of a value below ten.
pub open spec fn digit_char(d: nat) -> char {
    (48 + d) as char
}

/// The decimal digits of a natural number, most significant first.
pub open spec fn digits_of(n: nat) -> Seq<char>
    decreases n,
{
    if n < 10 {
        seq![digit_char(n)]
    } else {
        digits_of(n / 10).push(digit_char(n % 10))
    }
}

/// An integer written in decimal, as `Display` writes it: a minus sign
/// before negative numbers, no leading zeros.
pub open spec fn decimal_text(x: int) -> Seq<char> {
    if x < 0 {
        seq!['-'] + digits_of((-x) as nat)
    } else {
        digits_of(x as nat)
    }
}

fn push_digits(out: &mut String, n: u64)
    ensures
        final(out)@ == old(out)@ + digits_of(n as nat),
    decreases n,
{
    if n >= 10 {
        push_digits(out, n / 10);
    }
    let d = (n % 10) as u8;
    push_char(out, (48 + d) as char);
    assert(final(out)@ =~= old(out)@ + digits_of(n as nat));
}

/// Appends `x` written in decimal.
pub fn push_decimal(out: &mut String, x: i64)
    ensures
        final(out)@ == old(out)@ + decimal_text(x as int),
{
    if x < 0 {
        push_char(out, '-');
        let m: u64 = ((-(x + 1)) as u64) + 1;
        push_digits(out, m);
        assert(final(out)@ =~= old(out)@ + decimal_text(x as int));
    } else {
        push_digits(out, x as u64);
    }
}

/// A text holds whatever stands anywhere inside it, itself included, and
/// never a longer text.
pub proof fn lemma_contains_text(a: Seq<char>, p: Seq<char>, b: Seq<char>)
    ensures
        contains_text(a + p + b, p),
        contains_text(p, p),
        contains_text(a, Seq::<char>::empty()),
        p.len() > a.len() ==> !contains_text(a, p),
{
    let t = a + p + b;
    assert(t.subrange(a.len() as int, (a.len() + p.len()) as int) =~= p);
    assert(p.subrange(0, 0int + p.len()) =~= p);
    assert(a.subrange(0, 0int + Seq::<char>::empty().len()) =~= Seq::<char>::empty());
}

/// The number a run of decimal digits spells.
pub open spec fn digits_value(ds: Seq<char>) -> int
    decreases ds.len(),
{
    if ds.len() == 0 {
        0
    } else {
        digits_value(ds.drop_last()) * 10 + ((ds.last() as int) - 48)
    }
}

/// The decimal digits of a number are characters '0' to '9' that spell it
/// back, with no leading zero.
pub proof fn lemma_digits_spell(n: nat)
    ensures
        digits_of(n).len() > 0,
        forall|i: int| 0 <= i < digits_of(n).len() ==> 48 <= (#[trigger] digits_of(n)[i] as int) <= 57,
        digits_value(digits_of(n)) == n,
        n > 0 ==> digits_of(n)[0] != '0',
    decreases n,
{
    if n >= 10 {
        lemma_digits_spell(n / 10);
        let d = digits_of(n / 10);
        assert(digits_of(n) == d.push(digit_char(n % 10)));
        assert(digits_of(n).drop_last() =~= d);
        assert forall|i: int| 0 <= i < digits_of(n).len() implies 48 <= (
        #[trigger] digits_of(n)[i] as int) <= 57 by {
            if i < d.len() {
                assert(digits_of(n)[i] == d[i]);
            }
        }
        assert(digits_of(n)[0] == d[0]);
        assert(digits_of(n).last() == digit_char(n % 10));
        assert((digit_char(n % 10) as int) == 48 + n % 10);
        assert(digits_value(digits_of(n)) == digits_value(d) * 10 + (n % 10));
    } else {
        reveal_with_fuel(digits_value, 2);
        assert(digits_of(n).drop_last() =~= Seq::<char>::empty());
        assert((digit_char(n) as int) == 48 + n);
    }
}

} // verus!
