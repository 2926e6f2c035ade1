//! Character- and string-level helpers: blank-line detection, tab expansion,
//! decimal rendering of line numbers, and string equality.

use vstd::prelude::*;

verus! {

/// The Unicode `White_Space` characters, by scalar value.  A line is blank
/// when it holds nothing but these.
pub open spec fn is_space_char(c: char) -> bool {
    let u = c as u32;
    (0x09 <= u && u <= 0x0d) || u == 0x20 || u == 0x85 || u == 0xa0 || u == 0x1680 || (0x2000
        <= u && u <= 0x200a) || u == 0x2028 || u == 0x2029 || u == 0x202f || u == 0x205f || u
        == 0x3000
}

/// A blank line: every character is whitespace (so in particular the empty
/// line is blank).
pub open spec fn is_blank(line: Seq<char>) -> bool {
    forall|i: int| 0 <= i < line.len() ==> is_space_char(#[trigger] line[i])
}

/// Whether the character counts as whitespace.
pub fn is_space_char_exec(c: char) -> (r: bool)
    ensures
        r == is_space_char(c),
{
    let u: u32 = c as u32;
    (0x09 <= u && u <= 0x0d) || u == 0x20 || u == 0x85 || u == 0xa0 || u == 0x1680 || (0x2000
        <= u && u <= 0x200a) || u == 0x2028 || u == 0x2029 || u == 0x202f || u == 0x205f || u
        == 0x3000
}

/// Equality of two string slices, decided character by character.
pub fn str_eq(a: &str, b: &str) -> (r: bool)
    ensures
        r == (a@ == b@),
{
    let na: usize = a.unicode_len();
    let nb: usize = b.unicode_len();
    if na != nb {
        return false;
    }
    let mut i: usize = 0;
    while i < na
        invariant
            0 <= i <= na,
            na == a@.len(),
            na == b@.len(),
            forall|j: int| 0 <= j < i ==> a@[j] == b@[j],
        decreases na - i,
    {
        if a.get_char(i) != b.get_char(i) {
            return false;
        }
        i = i + 1;
    }
    proof {
        assert(a@ =~= b@);
    }
    true
}

/// Whether the line is blank, i.e. holds only whitespace.
pub fn is_blank_exec(line: &str) -> (r: bool)
    ensures
        r == is_blank(line@),
{
    let n: usize = line.unicode_len();
    let mut i: usize = 0;
    while i < n
        invariant
            0 <= i <= n,
            n == line@.len(),
            forall|j: int| 0 <= j < i ==> is_space_char(#[trigger] line@[j]),
        decreases n - i,
    {
        if !is_space_char_exec(line.get_char(i)) {
            return false;
        }
        i = i + 1;
    }
    true
}

/// The digit character for a value below ten.
pub open spec fn digit_char(d: nat) -> char {
    if d == 0 {
        '0'
    } else if d == 1 {
        '1'
    } else if d == 2 {
        '2'
    } else if d == 3 {
        '3'
    } else if d == 4 {
        '4'
    } else if d == 5 {
        '5'
    } else if d == 6 {
        '6'
    } else if d == 7 {
        '7'
    } else if d == 8 {
        '8'
    } else {
        '9'
    }
}

/// The usual decimal notation of `n`, most significant digit first, with no
/// leading zeros (except for `n == 0` itself).
pub open spec fn dec_rep(n: nat) -> Seq<char>
    decreases n,
{
    if n < 10 {
        seq![digit_char(n)]
    } else {
        dec_rep(n / 10).push(digit_char(n % 10))
    }
}

/// A run of `n` space characters.
pub open spec fn spaces(n: nat) -> Seq<char>
    decreases n,
{
    if n == 0 {
        Seq::empty()
    } else {
        spaces((n - 1) as nat).push(' ')
    }
}

/// `s` padded with spaces on the left to at least six characters.
pub open spec fn pad6(s: Seq<char>) -> Seq<char> {
    if s.len() >= 6 {
        s
    } else {
        spaces((6 - s.len()) as nat) + s
    }
}

/// The numbering prefix for the value `v`: the decimal notation of `v`,
/// right-aligned in a field of width six, followed by two spaces.
pub open spec fn number_field(v: nat) -> Seq<char> {
    pad6(dec_rep(v)) + seq![' ', ' ']
}

fn digit_str(d: usize) -> (r: &'static str)
    requires
        d < 10,
    ensures
        r@ =~= seq![digit_char(d as nat)],
{
    proof {
        reveal_strlit("0");
        reveal_strlit("1");
        reveal_strlit("2");
        reveal_strlit("3");
        reveal_strlit("4");
        reveal_strlit("5");
        reveal_strlit("6");
        reveal_strlit("7");
        reveal_strlit("8");
        reveal_strlit("9");
    }
    match d {
        0 => "0",
        1 => "1",
        2 => "2",
        3 => "3",
        4 => "4",
        5 => "5",
        6 => "6",
        7 => "7",
        8 => "8",
        _ => "9",
    }
}

/// The decimal notation of `n` as a string.
pub fn to_decimal(n: usize) -> (r: String)
    ensures
        r@ == dec_rep(n as nat),
    decreases n,
{
    if n < 10 {
        String::from_str(digit_str(n))
    } else {
        let mut s = to_decimal(n / 10);
        s.append(digit_str(n % 10));
        proof {
            assert(s@ =~= dec_rep((n / 10) as nat).push(digit_char((n % 10) as nat)));
        }
        s
    }
}

/// The numbering prefix for the value `v` as a string.
pub fn number_field_exec(v: usize) -> (r: String)
    ensures
        r@ == number_field(v as nat),
{
    proof {
        reveal_strlit(" ");
        reveal_strlit("  ");
    }
    let digits = to_decimal(v);
    let ndigits: usize = digits.as_str().unicode_len();
    let mut s = String::new();
    let mut k: usize = ndigits;
    while k < 6
        invariant
            ndigits <= k <= 6 || (ndigits > 6 && k == ndigits),
            ndigits == dec_rep(v as nat).len(),
            s@ =~= spaces((k - ndigits) as nat),
        decreases 6 - k,
    {
        s.append(" ");
        proof {
            reveal_strlit(" ");
            assert(" "@ =~= seq![' ']);
            assert(s@ =~= spaces((k + 1 - ndigits) as nat));
        }
        k = k + 1;
    }
    s.append(digits.as_str());
    s.append("  ");
    proof {
        assert("  "@ =~= seq![' ', ' ']);
        assert(s@ =~= number_field(v as nat));
    }
    s
}

/// Tab expansion: every tab character becomes the two-character sequence
/// `^I`; every other character is kept unchanged, in order.
pub open spec fn expand_tabs(s: Seq<char>) -> Seq<char>
    decreases s.len(),
{
    if s.len() == 0 {
        Seq::empty()
    } else {
        expand_tabs(s.drop_last()) + (if s.last() == '\t' {
            seq!['^', 'I']
        } else {
            seq![s.last()]
        })
    }
}

/// No character of an expanded line is a tab: expansion replaces every tab.
pub proof fn lemma_expand_tabs_no_tab(s: Seq<char>)
    ensures
        forall|i: int| 0 <= i < expand_tabs(s).len() ==> expand_tabs(s)[i] != '\t',
    decreases s.len(),
{
    if s.len() > 0 {
        lemma_expand_tabs_no_tab(s.drop_last());
        let pre = expand_tabs(s.drop_last());
        let piece: Seq<char> = if s.last() == '\t' {
            seq!['^', 'I']
        } else {
            seq![s.last()]
        };
        assert forall|i: int| 0 <= i < expand_tabs(s).len() implies expand_tabs(s)[i] != '\t' by {
            if i < pre.len() {
                assert(expand_tabs(s)[i] == pre[i]);
            } else {
                assert(expand_tabs(s)[i] == piece[i - pre.len()]);
            }
        }
    }
}

/// Tab expansion works piece by piece: expanding a concatenation expands the
/// parts.
pub proof fn lemma_expand_tabs_concat(a: Seq<char>, b: Seq<char>)
    ensures
        expand_tabs(a + b) == expand_tabs(a) + expand_tabs(b),
    decreases b.len(),
{
    if b.len() == 0 {
        assert(a + b =~= a);
        assert(expand_tabs(a) + expand_tabs(b) =~= expand_tabs(a));
    } else {
        lemma_expand_tabs_concat(a, b.drop_last());
        assert((a + b).drop_last() =~= a + b.drop_last());
        assert((a + b).last() == b.last());
        assert(expand_tabs(a) + expand_tabs(b) =~= expand_tabs(a + b));
    }
}

/// Every tab becomes `^I`, exactly where it stood: expanding
/// `before + tab + after` gives the expansion of `before`, then `^I`, then
/// the expansion of `after`.
pub proof fn lemma_tab_becomes_marker(before: Seq<char>, after: Seq<char>)
    ensures
        expand_tabs(before + seq!['\t'] + after) == expand_tabs(before) + seq!['^', 'I']
            + expand_tabs(after),
{
    lemma_expand_tabs_concat(before + seq!['\t'], after);
    lemma_expand_tabs_concat(before, seq!['\t']);
    assert(seq!['\t'].drop_last() =~= Seq::<char>::empty());
    assert(expand_tabs(Seq::<char>::empty()) =~= Seq::<char>::empty());
    assert(seq!['\t'].last() == '\t');
    assert(expand_tabs(seq!['\t']) =~= seq!['^', 'I']);
}

/// A line without tabs is left unchanged by tab expansion.
pub proof fn lemma_expand_tabs_id(s: Seq<char>)
    requires
        forall|i: int| 0 <= i < s.len() ==> s[i] != '\t',
    ensures
        expand_tabs(s) == s,
    decreases s.len(),
{
    if s.len() > 0 {
        lemma_expand_tabs_id(s.drop_last());
        assert(expand_tabs(s) =~= s);
    }
}

/// `s` with every tab character replaced by `^I`.
pub fn expand_tabs_exec(s: &str) -> (r: String)
    ensures
        r@ == expand_tabs(s@),
{
    let n: usize = s.unicode_len();
    let mut out = String::new();
    let mut i: usize = 0;
    while i < n
        invariant
            0 <= i <= n,
            n == s@.len(),
            out@ == expand_tabs(s@.subrange(0, i as int)),
        decreases n - i,
    {
        let c = s.get_char(i);
        proof {
            assert(s@.subrange(0, i + 1).drop_last() =~= s@.subrange(0, i as int));
            assert(s@.subrange(0, i + 1).last() == s@[i as int]);
        }
        if c == '\t' {
            out.append("^I");
            proof {
                reveal_strlit("^I");
                assert("^I"@ =~= seq!['^', 'I']);
            }
        } else {
            let piece = s.substring_char(i, i + 1);
            out.append(piece);
            proof {
                assert(s@.subrange(i as int, i + 1) =~= seq![s@[i as int]]);
            }
        }
        i = i + 1;
    }
    proof {
        assert(s@.subrange(0, n as int) =~= s@);
    }
    out
}

} // verus!
