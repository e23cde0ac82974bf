use vstd::prelude::*;
use vstd::string::*;

verus! {

/// `i` is where the first `:` of `s` stands.
pub open spec fn is_first_colon(s: Seq<char>, i: int) -> bool {
    &&& 0 <= i < s.len()
    &&& s[i] == ':'
    &&& forall|j: int| 0 <= j < i ==> s[j] != ':'
}

/// The pieces of `s` between its `:` characters, in order, as `str::split(':')` gives them.
pub open spec fn split_colons(s: Seq<char>) -> Seq<Seq<char>>
    decreases s.len(),
{
    if exists|i: int| is_first_colon(s, i) {
        let i = choose|i: int| is_first_colon(s, i);
        seq![s.take(i)] + split_colons(s.skip(i + 1))
    } else {
        seq![s]
    }
}

/// Unfolds `split_colons` at a position `r` before which there is no `:`, and at which there
/// is either a `:` or the end of `s`.
pub proof fn lemma_split_step(s: Seq<char>, r: int)
    requires
        0 <= r <= s.len(),
        forall|j: int| 0 <= j < r ==> s[j] != ':',
        r < s.len() ==> s[r] == ':',
    ensures
        split_colons(s) == if r < s.len() {
            seq![s.take(r)] + split_colons(s.skip(r + 1))
        } else {
            seq![s]
        },
        split_colons(s).len() >= 1,
        split_colons(s)[0] == s.take(r),
{
    if r < s.len() {
        assert(is_first_colon(s, r));
        let i = choose|i: int| is_first_colon(s, i);
        assert(i == r) by {
            if i < r {
                assert(s[i] != ':');
            }
            if r < i {
                assert(s[r] != ':');
            }
        }
    } else {
        assert(!exists|i: int| is_first_colon(s, i));
        assert(s.take(r) =~= s);
    }
}

/// A text with no first `:` has no `:` at all.
pub proof fn lemma_no_colon(s: Seq<char>)
    requires
        !exists|i: int| is_first_colon(s, i),
    ensures
        forall|j: int| 0 <= j < s.len() ==> s[j] != ':',
    decreases s.len(),
{
    if s.len() > 0 {
        if s[0] == ':' {
            assert(is_first_colon(s, 0));
        } else {
            let t = s.drop_first();
            if exists|i: int| is_first_colon(t, i) {
                let i = choose|i: int| is_first_colon(t, i);
                assert(is_first_colon(s, i + 1)) by {
                    assert forall|j: int| 0 <= j < i + 1 implies s[j] != ':' by {
                        if j > 0 {
                            assert(s[j] == t[j - 1]);
                        }
                    }
                }
            } else {
                lemma_no_colon(t);
                assert forall|j: int| 0 <= j < s.len() implies s[j] != ':' by {
                    if j > 0 {
                        assert(s[j] == t[j - 1]);
                    }
                }
            }
        }
    }
}

/// `split_colons` gives at least one piece.
pub proof fn lemma_split_nonempty(s: Seq<char>)
    ensures
        split_colons(s).len() >= 1,
{
}

/// The first `:` in `s` at or after `from`, or the length of `s` if there is none.
pub fn find_colon(s: &str, from: usize) -> (r: usize)
    requires
        from <= s@.len(),
    ensures
        from <= r <= s@.len(),
        s@.len() <= usize::MAX,
        forall|j: int| from <= j < r ==> s@[j] != ':',
        r < s@.len() ==> s@[r as int] == ':',
{
    let n = s.unicode_len();
    let mut i = from;
    while i < n
        invariant
            n == s@.len(),
            from <= i <= n,
            forall|j: int| from <= j < i ==> s@[j] != ':',
        decreases n - i,
    {
        if s.get_char(i) == ':' {
            return i;
        }
        i = i + 1;
    }
    i
}

/// Whether `a` and `b` hold the same characters.
pub fn same_text(a: &str, b: &str) -> (res: bool)
    ensures
        res == (a@ == b@),
{
    let n = a.unicode_len();
    if n != b.unicode_len() {
        return false;
    }
    let mut i: usize = 0;
    while i < n
        invariant
            n == a@.len(),
            n == b@.len(),
            i <= n,
            forall|j: int| 0 <= j < i ==> a@[j] == b@[j],
        decreases n - i,
    {
        if a.get_char(i) != b.get_char(i) {
            return false;
        }
        i = i + 1;
    }
    proof {
        assert(a@ =~= b@);
    }
    true
}

/// The characters of `s` from `from` to `to`, as a new string.
pub fn substring(s: &str, from: usize, to: usize) -> (res: String)
    requires
        from <= to <= s@.len(),
    ensures
        res@ == s@.subrange(from as int, to as int),
{
    s.substring_char(from, to).to_owned()
}

/// The decimal digits of `n`, most significant first, without leading zeros ("0" for zero).
pub open spec fn decimal(n: nat) -> Seq<char>
    decreases n,
{
    if n < 10 {
        seq![digit_char(n)]
    } else {
        decimal(n / 10).push(digit_char(n % 10))
    }
}

/// Whether `s` is a non-empty run of decimal digits.
pub open spec fn is_decimal_digits(s: Seq<char>) -> bool {
    s.len() > 0 && forall|i: int| 0 <= i < s.len() ==> '0' <= #[trigger] s[i] <= '9'
}

/// The number that the decimal digits `s` stand for, read most significant first.
pub open spec fn decimal_value(s: Seq<char>) -> nat
    decreases s.len(),
{
    if s.len() == 0 {
        0
    } else {
        decimal_value(s.drop_last()) * 10 + (s.last() as nat - '0' as nat) as nat
    }
}

/// The digit character of `d` stands for `d`.
proof fn lemma_digit_char_value(d: nat)
    requires
        d < 10,
    ensures
        '0' <= digit_char(d) <= '9',
        (digit_char(d) as nat - '0' as nat) as nat == d,
{
}

/// Writing `n` in decimal gives digits that read back as `n`.
pub proof fn lemma_decimal_reads_back(n: nat)
    ensures
        is_decimal_digits(decimal(n)),
        decimal_value(decimal(n)) == n,
    decreases n,
{
    lemma_digit_char_value(n % 10);
    let t = decimal(n);
    assert(t.len() > 0);
    assert(decimal_value(t) == decimal_value(t.drop_last()) * 10 + (t.last() as nat - '0' as nat) as nat);
    if n < 10 {
        assert(t.last() == digit_char(n));
        assert(decimal_value(t.drop_last()) == 0);
        assert(decimal(n).drop_last() =~= Seq::<char>::empty());
        assert(n % 10 == n);
    } else {
        lemma_decimal_reads_back(n / 10);
        let head = decimal(n / 10);
        assert(decimal(n).drop_last() =~= head);
        assert(decimal(n).last() == digit_char(n % 10));
        assert(decimal_value(t.drop_last()) == n / 10);
        assert(n / 10 * 10 + n % 10 == n) by (nonlinear_arith);
        assert forall|i: int| 0 <= i < decimal(n).len() implies '0' <= #[trigger] decimal(n)[i] <= '9' by {
            if i < head.len() {
                assert(decimal(n)[i] == head[i]);
            }
        }
    }
}


/// The character of a decimal digit.
pub open spec fn digit_char(d: nat) -> char {
    if d == 0 {
        '0'
    } else if d == 1 {
        '1'
    } else if d == 2 {
        '2'
    } else if d == 3 {
        '3'
    } else if d == 4 {
        '4'
    } else if d == 5 {
        '5'
    } else if d == 6 {
        '6'
    } else if d == 7 {
        '7'
    } else if d == 8 {
        '8'
    } else {
        '9'
    }
}

fn digit_text(d: u64) -> (res: &'static str)
    requires
        d < 10,
    ensures
        res@ == seq![digit_char(d as nat)],
{
    proof {
        reveal_strlit("0");
        reveal_strlit("1");
        reveal_strlit("2");
        reveal_strlit("3");
        reveal_strlit("4");
        reveal_strlit("5");
        reveal_strlit("6");
        reveal_strlit("7");
        reveal_strlit("8");
        reveal_strlit("9");
    }
    if d == 0 {
        "0"
    } else if d == 1 {
        "1"
    } else if d == 2 {
        "2"
    } else if d == 3 {
        "3"
    } else if d == 4 {
        "4"
    } else if d == 5 {
        "5"
    } else if d == 6 {
        "6"
    } else if d == 7 {
        "7"
    } else if d == 8 {
        "8"
    } else {
        "9"
    }
}

/// `n` written in decimal, as `format!("{}", n)` writes it.
pub fn decimal_string(n: u64) -> (res: String)
    ensures
        res@ == decimal(n as nat),
    decreases n,
{
    if n < 10 {
        digit_text(n).to_owned()
    } else {
        let head = decimal_string(n / 10);
        head.concat(digit_text(n % 10))
    }
}

} // verus!
