use vstd::prelude::*;

verus! {

/// The characters this library strips when it trims the start of a line.
pub open spec fn is_trim_char(c: char) -> bool {
    c == ' ' || c == '\t'
}

/// The sequence with leading spaces and tabs removed.
pub open spec fn trim_start_spec(s: Seq<char>) -> Seq<char>
    decreases s.len(),
{
    if s.len() > 0 && is_trim_char(s[0]) {
        trim_start_spec(s.skip(1))
    } else {
        s
    }
}

/// Position of the first occurrence of `c` in `s`, if any.
pub open spec fn find_char(s: Seq<char>, c: char) -> Option<int>
    decreases s.len(),
{
    if s.len() == 0 {
        None
    } else if s[0] == c {
        Some(0int)
    } else {
        match find_char(s.skip(1), c) {
            Some(i) => Some(i + 1),
            None => None,
        }
    }
}

pub proof fn lemma_find_char_at(s: Seq<char>, c: char, i: int)
    requires
        0 <= i < s.len(),
        s[i] == c,
        forall|j: int| 0 <= j < i ==> s[j] != c,
    ensures
        find_char(s, c) == Some(i),
    decreases i,
{
    if i > 0 {
        assert(forall|j: int| 0 <= j < i - 1 ==> s.skip(1)[j] == s[j + 1]);
        lemma_find_char_at(s.skip(1), c, i - 1);
    }
}

pub proof fn lemma_find_char_none(s: Seq<char>, c: char)
    requires
        forall|j: int| 0 <= j < s.len() ==> s[j] != c,
    ensures
        find_char(s, c) is None,
    decreases s.len(),
{
    if s.len() > 0 {
        assert(forall|j: int| 0 <= j < s.len() - 1 ==> s.skip(1)[j] == s[j + 1]);
        lemma_find_char_none(s.skip(1), c);
    }
}

/// What a found position means: the character stands there.
pub proof fn lemma_find_char_some(s: Seq<char>, c: char, i: int)
    requires
        find_char(s, c) == Some(i),
    ensures
        0 <= i < s.len(),
        s[i] == c,
    decreases s.len(),
{
    if s.len() > 0 && s[0] != c {
        match find_char(s.skip(1), c) {
            Some(j) => {
                lemma_find_char_some(s.skip(1), c, j);
                assert(s.skip(1)[j] == s[j + 1]);
            },
            None => (),
        }
    }
}

/// Whether the strings hold the same characters.
pub fn str_eq(a: &str, b: &str) -> (r: bool)
    ensures
        r == (a@ == b@),
{
    let la: usize = a.unicode_len();
    let lb: usize = b.unicode_len();
    if la != lb {
        return false;
    }
    let mut i: usize = 0;
    while i < la
        invariant
            la == a@.len(),
            la == b@.len(),
            0 <= i <= la,
            forall|j: int| 0 <= j < i ==> a@[j] == b@[j],
        decreases la - i,
    {
        if a.get_char(i) != b.get_char(i) {
            return false;
        }
        i += 1;
    }
    proof {
        assert(a@ =~= b@);
    }
    true
}

/// Position of the first occurrence of `c`, scanning left to right.
pub fn find_char_in(s: &str, c: char) -> (r: Option<usize>)
    ensures
        match r {
            Some(i) => i < s@.len() && find_char(s@, c) == Some(i as int),
            None => find_char(s@, c) is None,
        },
{
    let len: usize = s.unicode_len();
    let mut i: usize = 0;
    while i < len
        invariant
            len == s@.len(),
            0 <= i <= len,
            forall|j: int| 0 <= j < i ==> s@[j] != c,
        decreases len - i,
    {
        if s.get_char(i) == c {
            proof {
                lemma_find_char_at(s@, c, i as int);
            }
            return Some(i);
        }
        i += 1;
    }
    proof {
        lemma_find_char_none(s@, c);
    }
    None
}

proof fn lemma_trim_start_skip(s: Seq<char>, i: int)
    requires
        0 <= i <= s.len(),
        forall|j: int| 0 <= j < i ==> is_trim_char(s[j]),
        i < s.len() ==> !is_trim_char(s[i]),
    ensures
        trim_start_spec(s) == s.skip(i),
    decreases i,
{
    if i == 0 {
        assert(s.skip(0) =~= s);
    } else {
        assert(forall|j: int| 0 <= j < i - 1 ==> s.skip(1)[j] == s[j + 1]);
        lemma_trim_start_skip(s.skip(1), i - 1);
        assert(s.skip(1).skip(i - 1) =~= s.skip(i));
    }
}

/// The input with leading spaces and tabs removed.
pub fn trim_start(s: &str) -> (r: &str)
    ensures
        r@ == trim_start_spec(s@),
{
    let len: usize = s.unicode_len();
    let mut i: usize = 0;
    loop
        invariant
            len == s@.len(),
            0 <= i <= len,
            forall|j: int| 0 <= j < i ==> is_trim_char(s@[j]),
        ensures
            0 <= i <= len,
            forall|j: int| 0 <= j < i ==> is_trim_char(s@[j]),
            i < len ==> !is_trim_char(s@[i as int]),
        decreases len - i,
    {
        if i >= len {
            break;
        }
        let c = s.get_char(i);
        if c != ' ' && c != '\t' {
            break;
        }
        i += 1;
    }
    proof {
        lemma_trim_start_skip(s@, i as int);
    }
    let r = s.substring_char(i, len);
    proof {
        assert(r@ =~= s@.skip(i as int));
    }
    r
}

/// `n` copies of the character `c`.
pub open spec fn char_repeat(c: char, n: nat) -> Seq<char> {
    Seq::new(n, |i: int| c)
}

/// A run of `n` header markers.
pub fn hash_marks(n: usize) -> (r: String)
    ensures
        r@ == char_repeat('#', n as nat),
{
    let mut out = String::new();
    let mut i: usize = 0;
    while i < n
        invariant
            0 <= i <= n,
            out@ =~= char_repeat('#', i as nat),
        decreases n - i,
    {
        out.append("#");
        proof {
            reveal_strlit("#");
        }
        i += 1;
    }
    proof {
        assert(out@ =~= char_repeat('#', n as nat));
    }
    out
}

/// The decimal digits of `n`, most significant first.
pub open spec fn dec_str(n: nat) -> Seq<char>
    decreases n,
{
    if n < 10 {
        seq![dec_digit(n)]
    } else {
        dec_str(n / 10).push(dec_digit(n % 10))
    }
}

/// The character for a single decimal digit.
pub open spec fn dec_digit(n: nat) -> char {
    if n == 0 {
        '0'
    } else if n == 1 {
        '1'
    } else if n == 2 {
        '2'
    } else if n == 3 {
        '3'
    } else if n == 4 {
        '4'
    } else if n == 5 {
        '5'
    } else if n == 6 {
        '6'
    } else if n == 7 {
        '7'
    } else if n == 8 {
        '8'
    } else {
        '9'
    }
}

fn dec_digit_str(n: u8) -> (r: &'static str)
    requires
        n < 10,
    ensures
        r@ =~= seq![dec_digit(n as nat)],
{
    proof {
        reveal_strlit("0");
        reveal_strlit("1");
        reveal_strlit("2");
        reveal_strlit("3");
        reveal_strlit("4");
        reveal_strlit("5");
        reveal_strlit("6");
        reveal_strlit("7");
        reveal_strlit("8");
        reveal_strlit("9");
    }
    match n {
        0 => "0",
        1 => "1",
        2 => "2",
        3 => "3",
        4 => "4",
        5 => "5",
        6 => "6",
        7 => "7",
        8 => "8",
        _ => "9",
    }
}

/// The number `n` written in decimal.
pub fn dec_string(n: u8) -> (r: String)
    ensures
        r@ == dec_str(n as nat),
    decreases n,
{
    if n < 10 {
        let mut out = String::new();
        out.append(dec_digit_str(n));
        proof {
            assert(out@ =~= dec_str(n as nat));
        }
        out
    } else {
        let mut out = dec_string(n / 10);
        out.append(dec_digit_str(n % 10));
        proof {
            assert(out@ =~= dec_str(n as nat));
        }
        out
    }
}

} // verus!
