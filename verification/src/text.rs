//! Character-level building blocks: hexadecimal and decimal digits, and the
//! space-separated lists that OAuth scopes are written as.
use vstd::prelude::*;

verus! {

/// The lowercase hexadecimal digit for `v` (`0 <= v < 16`).
pub open spec fn hex_char(v: int) -> char {
    if v < 10 {
        (v + 48) as char
    } else {
        (v - 10 + 97) as char
    }
}

/// The value of a hexadecimal digit, either case, or `None`.
pub open spec fn hex_value(c: char) -> Option<int> {
    if '0' <= c && c <= '9' {
        Some(c as int - 48)
    } else if 'a' <= c && c <= 'f' {
        Some(c as int - 97 + 10)
    } else if 'A' <= c && c <= 'F' {
        Some(c as int - 65 + 10)
    } else {
        None
    }
}

/// Whether every character of `s` is a hexadecimal digit.
pub open spec fn all_hex(s: Seq<char>) -> bool {
    forall|i: int| 0 <= i < s.len() ==> (#[trigger] hex_value(s[i])) is Some
}

/// The number that the hexadecimal digits `s` spell, most significant first.
pub open spec fn hex_number(s: Seq<char>) -> int
    decreases s.len(),
{
    if s.len() == 0 {
        0
    } else {
        hex_number(s.drop_last()) * 16 + hex_value(s.last())->0
    }
}

/// The `width` lowercase hexadecimal digits of `v`, most significant first
/// (the high digits are dropped when `v` needs more than `width` of them).
pub open spec fn hex_digits(v: nat, width: nat) -> Seq<char>
    decreases width,
{
    if width == 0 {
        seq![]
    } else {
        hex_digits(v / 16, (width - 1) as nat).push(hex_char((v % 16) as int))
    }
}

/// The decimal digit for `d` (`0 <= d < 10`).
pub open spec fn decimal_char(d: int) -> char {
    (d + 48) as char
}

/// The decimal numeral of `n`, without leading zeros.
pub open spec fn decimal(n: nat) -> Seq<char>
    decreases n,
{
    if n < 10 {
        seq![decimal_char(n as int)]
    } else {
        decimal(n / 10).push(decimal_char((n % 10) as int))
    }
}

/// The decimal numeral of a signed number: a minus sign before negative ones.
pub open spec fn signed_decimal(n: int) -> Seq<char> {
    if n < 0 {
        seq!['-'] + decimal((-n) as nat)
    } else {
        decimal(n as nat)
    }
}

/// `s` cut at every space, as `str::split(' ')` cuts it: the pieces between
/// the spaces in order, empty pieces included, and one piece more than there
/// are spaces.
pub open spec fn split_spaces(s: Seq<char>) -> Seq<Seq<char>>
    decreases s.len(),
{
    if s.len() == 0 {
        seq![seq![]]
    } else if s.last() == ' ' {
        split_spaces(s.drop_last()).push(seq![])
    } else {
        let pieces = split_spaces(s.drop_last());
        pieces.update(pieces.len() - 1, pieces.last().push(s.last()))
    }
}

/// Splitting always yields at least one piece.
pub proof fn lemma_split_nonempty(s: Seq<char>)
    ensures
        split_spaces(s).len() >= 1,
    decreases s.len(),
{
    if s.len() > 0 {
        lemma_split_nonempty(s.drop_last());
    }
}

/// Whether the word `w` is one of the space-separated pieces of `s`.
pub open spec fn has_word(s: Seq<char>, w: Seq<char>) -> bool {
    split_spaces(s).contains(w)
}

/// Whether every space-separated piece of `wanted` is also a piece of `granted`.
pub open spec fn words_within(wanted: Seq<char>, granted: Seq<char>) -> bool {
    forall|i: int|
        0 <= i < split_spaces(wanted).len() ==> has_word(granted, #[trigger] split_spaces(wanted)[i])
}

/// The space-separated pieces of `s`, as `s.split(' ')` yields them.
pub fn split_spaces_exec(s: &str) -> (pieces: Vec<String>)
    ensures
        pieces@.len() == split_spaces(s@).len(),
        forall|i: int| 0 <= i < pieces@.len() ==> #[trigger] pieces@[i]@ == split_spaces(s@)[i],
{
    let n = s.unicode_len();
    let mut pieces: Vec<String> = Vec::new();
    let mut current = String::new();
    let mut i: usize = 0;
    proof {
        assert(s@.subrange(0, 0) =~= Seq::<char>::empty());
    }
    while i < n
        invariant
            n == s@.len(),
            i <= n,
            pieces@.len() + 1 == split_spaces(s@.subrange(0, i as int)).len(),
            forall|k: int| 0 <= k < pieces@.len() ==> #[trigger] pieces@[k]@ == split_spaces(
                s@.subrange(0, i as int),
            )[k],
            current@ == split_spaces(s@.subrange(0, i as int)).last(),
        decreases n - i,
    {
        let c = s.get_char(i);
        let ghost prefix = s@.subrange(0, i as int);
        let ghost next = s@.subrange(0, i + 1);
        proof {
            assert(next.drop_last() =~= prefix);
            assert(next.last() == c);
            lemma_split_nonempty(prefix);
        }
        if c == ' ' {
            let done = current;
            pieces.push(done);
            current = String::new();
        } else {
            push_char(&mut current, c);
        }
        i = i + 1;
    }
    proof {
        assert(s@.subrange(0, n as int) =~= s@);
    }
    pieces.push(current);
    pieces
}

/// `String::push`: appends one character.
#[verifier::external_body]
pub(crate) fn push_char(s: &mut String, c: char)
    ensures
        final(s)@ == old(s)@.push(c),
{
    s.push(c);
}

/// `16` to the power `w`.
pub open spec fn pow16(w: nat) -> nat
    decreases w,
{
    if w == 0 {
        1
    } else {
        16 * pow16((w - 1) as nat)
    }
}

/// A hexadecimal digit reads back as the value it was written for.
pub proof fn lemma_hex_char_value(d: int)
    requires
        0 <= d < 16,
    ensures
        hex_value(hex_char(d)) == Some(d),
        ('\0' <= hex_char(d) <= '\u{7f}'),
{
}

/// The `w` digits of `v` are `w` ASCII hexadecimal digits that read back as
/// `v` modulo `16^w`.
pub proof fn lemma_hex_digits_read_back(v: nat, w: nat)
    ensures
        hex_digits(v, w).len() == w,
        all_hex(hex_digits(v, w)),
        vstd::utf8::is_ascii_chars(hex_digits(v, w)),
        hex_number(hex_digits(v, w)) == v % pow16(w),
    decreases w,
{
    if w == 0 {
    } else {
        let rest = hex_digits(v / 16, (w - 1) as nat);
        let d = (v % 16) as int;
        lemma_hex_digits_read_back(v / 16, (w - 1) as nat);
        lemma_hex_char_value(d);
        let s = rest.push(hex_char(d));
        assert(s.drop_last() =~= rest);
        assert(pow16((w - 1) as nat) > 0) by {
            lemma_pow16_positive((w - 1) as nat);
        }
        vstd::arithmetic::div_mod::lemma_mod_breakdown(v as int, 16, pow16((w - 1) as nat) as int);
        assert forall|i: int| 0 <= i < s.len() implies (#[trigger] hex_value(s[i])) is Some by {
            if i < rest.len() {
                assert(s[i] == rest[i]);
            }
        }
        assert(vstd::utf8::is_ascii_chars(s)) by {
            assert forall|i: int| 0 <= i < s.len() implies '\0' <= #[trigger] s[i] <= '\u{7f}' by {
                if i < rest.len() {
                    assert(s[i] == rest[i]);
                }
            }
        }
    }
}

/// Powers of 16 are positive.
pub proof fn lemma_pow16_positive(w: nat)
    ensures
        pow16(w) > 0,
    decreases w,
{
    if w > 0 {
        lemma_pow16_positive((w - 1) as nat);
    }
}

} // verus!
