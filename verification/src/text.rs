//! Character-sequence utilities shared by the template parser and the
//! emitters: splitting on a separator, joining, rendering decimal numbers,
//! and case-insensitive keyword comparison.

use vstd::prelude::*;

verus! {

/// The views of a sequence of strings.
pub open spec fn str_views(v: Seq<String>) -> Seq<Seq<char>> {
    v.map_values(|s: String| s@)
}

pub proof fn lemma_str_views_push(v: Seq<String>, x: String)
    ensures
        str_views(v.push(x)) == str_views(v).push(x@),
{
    assert(str_views(v.push(x)) =~= str_views(v).push(x@));
}

/// Splits `s` at every occurrence of `sep`. Always yields at least one piece;
/// `n` separators yield `n + 1` pieces, each free of the separator.
pub open spec fn split_on(s: Seq<char>, sep: char) -> Seq<Seq<char>>
    decreases s.len(),
{
    if s.len() == 0 {
        seq![Seq::<char>::empty()]
    } else if s[0] == sep {
        seq![Seq::<char>::empty()] + split_on(s.drop_first(), sep)
    } else {
        let rest = split_on(s.drop_first(), sep);
        seq![seq![s[0]] + rest[0]] + rest.drop_first()
    }
}

/// Joins pieces with the separator between consecutive pieces.
pub open spec fn join_on(parts: Seq<Seq<char>>, sep: char) -> Seq<char>
    decreases parts.len(),
{
    if parts.len() == 0 {
        Seq::empty()
    } else if parts.len() == 1 {
        parts[0]
    } else {
        parts[0] + seq![sep] + join_on(parts.drop_first(), sep)
    }
}

pub proof fn lemma_split_on_nonempty(s: Seq<char>, sep: char)
    ensures
        split_on(s, sep).len() >= 1,
    decreases s.len(),
{
    if s.len() == 0 {
    } else if s[0] == sep {
    } else {
        lemma_split_on_nonempty(s.drop_first(), sep);
    }
}

/// Joining the pieces of a split restores the original sequence.
pub proof fn lemma_join_split(s: Seq<char>, sep: char)
    ensures
        join_on(split_on(s, sep), sep) == s,
    decreases s.len(),
{
    if s.len() == 0 {
        assert(join_on(split_on(s, sep), sep) =~= s);
    } else if s[0] == sep {
        lemma_join_split(s.drop_first(), sep);
        lemma_split_on_nonempty(s.drop_first(), sep);
        let parts = split_on(s, sep);
        assert(parts.drop_first() =~= split_on(s.drop_first(), sep));
        assert(join_on(parts, sep) =~= s);
    } else {
        lemma_join_split(s.drop_first(), sep);
        lemma_split_on_nonempty(s.drop_first(), sep);
        let r = split_on(s.drop_first(), sep);
        let parts = split_on(s, sep);
        if r.len() == 1 {
            assert(join_on(r, sep) == r[0]);
            assert(join_on(parts, sep) =~= s);
        } else {
            assert(parts.drop_first() =~= r.drop_first());
            assert(join_on(parts, sep) =~= seq![s[0]] + join_on(r, sep));
            assert(seq![s[0]] + join_on(r, sep) =~= s);
        }
    }
}

/// Characterizes a split by its first separator position: if no separator
/// occurs before index `k`, the split begins with `s[0..k]`.
pub proof fn lemma_split_on_head(s: Seq<char>, sep: char, k: int)
    requires
        0 <= k <= s.len(),
        forall|j: int| 0 <= j < k ==> s[j] != sep,
        k < s.len() ==> s[k] == sep,
    ensures
        k == s.len() ==> split_on(s, sep) == seq![s],
        k < s.len() ==> split_on(s, sep) == seq![s.subrange(0, k)] + split_on(
            s.subrange(k + 1, s.len() as int),
            sep,
        ),
    decreases k,
{
    if k == 0 {
        if s.len() == 0 {
            assert(split_on(s, sep) =~~= seq![s]);
        } else {
            assert(s[0] == sep);
            assert(s.subrange(0, 0) =~= Seq::<char>::empty());
            assert(s.subrange(1, s.len() as int) =~= s.drop_first());
            assert(split_on(s, sep) =~~= seq![s.subrange(0, 0)] + split_on(
                s.subrange(1, s.len() as int),
                sep,
            ));
        }
    } else {
        assert(s[0] != sep);
        let d = s.drop_first();
        assert(forall|j: int| 0 <= j < k - 1 ==> d[j] != sep);
        lemma_split_on_head(d, sep, k - 1);
        let r = split_on(d, sep);
        lemma_split_on_nonempty(d, sep);
        if k == s.len() {
            assert(r == seq![d]);
            assert(r[0] == d);
            assert(seq![s[0]] + r[0] =~= s);
            assert(split_on(s, sep) =~~= seq![s]);
        } else {
            assert(r == seq![d.subrange(0, k - 1)] + split_on(d.subrange(k, d.len() as int), sep));
            assert(r[0] == d.subrange(0, k - 1));
            assert(seq![s[0]] + r[0] =~= s.subrange(0, k));
            assert(d.subrange(k, d.len() as int) =~= s.subrange(k + 1, s.len() as int));
            assert(r.drop_first() =~= split_on(s.subrange(k + 1, s.len() as int), sep));
            assert(split_on(s, sep) =~~= seq![s.subrange(0, k)] + split_on(
                s.subrange(k + 1, s.len() as int),
                sep,
            ));
        }
    }
}

/// Appending one more piece to a join: the separator goes between the
/// existing pieces and the new one.
pub proof fn lemma_join_on_push(parts: Seq<Seq<char>>, sep: char, p: Seq<char>)
    ensures
        parts.len() == 0 ==> join_on(parts.push(p), sep) == p,
        parts.len() > 0 ==> join_on(parts.push(p), sep) == join_on(parts, sep) + seq![sep] + p,
    decreases parts.len(),
{
    if parts.len() == 0 {
        assert(parts.push(p)[0] == p);
    } else if parts.len() == 1 {
        let q = parts.push(p);
        assert(q.len() == 2);
        assert(q.drop_first() =~= seq![p]);
        assert(join_on(q, sep) == q[0] + seq![sep] + join_on(q.drop_first(), sep));
        assert(join_on(seq![p], sep) == p);
        assert(q[0] == parts[0]);
    } else {
        lemma_join_on_push(parts.drop_first(), sep, p);
        assert(parts.push(p).drop_first() =~= parts.drop_first().push(p));
        assert(join_on(parts.push(p), sep) == parts[0] + seq![sep] + join_on(
            parts.drop_first().push(p),
            sep,
        ));
        assert(parts[0] + seq![sep] + (join_on(parts.drop_first(), sep) + seq![sep] + p) =~= (
        parts[0] + seq![sep] + join_on(parts.drop_first(), sep)) + seq![sep] + p);
    }
}

/// Character-exact string equality.
pub fn str_eq(a: &str, b: &str) -> (r: bool)
    ensures
        r == (a@ == b@),
{
    let n = a.unicode_len();
    let m = b.unicode_len();
    if n != m {
        return false;
    }
    let mut i: usize = 0;
    while i < n
        invariant
            i <= n,
            n == a@.len(),
            n == b@.len(),
            forall|j: int| 0 <= j < i ==> a@[j] == b@[j],
        decreases n - i,
    {
        let ca = a.get_char(i);
        let cb = b.get_char(i);
        if ca != cb {
            return false;
        }
        i += 1;
    }
    proof {
        assert(a@ =~= b@);
    }
    true
}

/// Whether one of the strings equals `s`, character for character.
pub fn contains_str(v: &Vec<String>, s: &str) -> (r: bool)
    ensures
        r == str_views(v@).contains(s@),
{
    let n = v.len();
    let mut i: usize = 0;
    while i < n
        invariant
            i <= n,
            n == v@.len(),
            forall|j: int| 0 <= j < i ==> str_views(v@)[j] != s@,
        decreases n - i,
    {
        if str_eq(v[i].as_str(), s) {
            proof {
                assert(str_views(v@)[i as int] == s@);
            }
            return true;
        }
        i += 1;
    }
    proof {
        assert(forall|j: int| 0 <= j < str_views(v@).len() ==> str_views(v@)[j] != s@);
    }
    false
}

/// Splits a string at every occurrence of `sep`.
pub fn split_str(s: &str, sep: char) -> (parts: Vec<String>)
    ensures
        str_views(parts@) == split_on(s@, sep),
{
    let n = s.unicode_len();
    let mut parts: Vec<String> = Vec::new();
    let mut start: usize = 0;
    let mut i: usize = 0;
    proof {
        assert(s@.subrange(0, n as int) =~= s@);
        assert(str_views(parts@) =~= Seq::<Seq<char>>::empty());
        assert(str_views(parts@) + split_on(s@, sep) =~~= split_on(s@, sep));
    }
    while i < n
        invariant
            start <= i <= n,
            n == s@.len(),
            forall|j: int| start <= j < i ==> s@[j] != sep,
            split_on(s@, sep) == str_views(parts@) + split_on(
                s@.subrange(start as int, n as int),
                sep,
            ),
        decreases n - i,
    {
        let c = s.get_char(i);
        if c == sep {
            let piece = String::from_str(s.substring_char(start, i));
            proof {
                let rem = s@.subrange(start as int, n as int);
                assert(forall|j: int| 0 <= j < i - start ==> rem[j] != sep);
                assert(rem[i - start] == sep);
                lemma_split_on_head(rem, sep, i - start);
                assert(rem.subrange(0, i - start) =~= s@.subrange(start as int, i as int));
                assert(rem.subrange(i - start + 1, rem.len() as int) =~= s@.subrange(
                    i as int + 1,
                    n as int,
                ));
                lemma_str_views_push(parts@, piece);
                assert(str_views(parts@.push(piece)) + split_on(
                    s@.subrange(i as int + 1, n as int),
                    sep,
                ) =~~= str_views(parts@) + split_on(rem, sep));
            }
            parts.push(piece);
            start = i + 1;
        }
        i += 1;
    }
    let piece = String::from_str(s.substring_char(start, n));
    proof {
        let rem = s@.subrange(start as int, n as int);
        assert(forall|j: int| 0 <= j < rem.len() ==> rem[j] != sep);
        lemma_split_on_head(rem, sep, rem.len() as int);
        lemma_str_views_push(parts@, piece);
        assert(piece@ == rem);
        assert(str_views(parts@.push(piece)) =~~= str_views(parts@) + seq![rem]);
    }
    parts.push(piece);
    parts
}

/// The decimal digit for a value below ten.
pub open spec fn digit_char(d: nat) -> char {
    if d == 0 {
        '0'
    } else if d == 1 {
        '1'
    } else if d == 2 {
        '2'
    } else if d == 3 {
        '3'
    } else if d == 4 {
        '4'
    } else if d == 5 {
        '5'
    } else if d == 6 {
        '6'
    } else if d == 7 {
        '7'
    } else if d == 8 {
        '8'
    } else {
        '9'
    }
}

/// The decimal rendering of a natural number, most significant digit first.
pub open spec fn dec_str(n: nat) -> Seq<char>
    decreases n,
{
    if n < 10 {
        seq![digit_char(n)]
    } else {
        dec_str(n / 10).push(digit_char(n % 10))
    }
}

proof fn lemma_digit_strs()
    ensures
        "0"@ == seq!['0'],
        "1"@ == seq!['1'],
        "2"@ == seq!['2'],
        "3"@ == seq!['3'],
        "4"@ == seq!['4'],
        "5"@ == seq!['5'],
        "6"@ == seq!['6'],
        "7"@ == seq!['7'],
        "8"@ == seq!['8'],
        "9"@ == seq!['9'],
{
    reveal_strlit("0");
    reveal_strlit("1");
    reveal_strlit("2");
    reveal_strlit("3");
    reveal_strlit("4");
    reveal_strlit("5");
    reveal_strlit("6");
    reveal_strlit("7");
    reveal_strlit("8");
    reveal_strlit("9");
    assert("0"@ =~= seq!['0']);
    assert("1"@ =~= seq!['1']);
    assert("2"@ =~= seq!['2']);
    assert("3"@ =~= seq!['3']);
    assert("4"@ =~= seq!['4']);
    assert("5"@ =~= seq!['5']);
    assert("6"@ =~= seq!['6']);
    assert("7"@ =~= seq!['7']);
    assert("8"@ =~= seq!['8']);
    assert("9"@ =~= seq!['9']);
}

/// The decimal digit of a value below ten, as a string slice.
fn digit_str(d: usize) -> (r: &'static str)
    requires
        d < 10,
    ensures
        r@ == seq![digit_char(d as nat)],
{
    proof {
        lemma_digit_strs();
    }
    match d {
        0 => "0",
        1 => "1",
        2 => "2",
        3 => "3",
        4 => "4",
        5 => "5",
        6 => "6",
        7 => "7",
        8 => "8",
        _ => "9",
    }
}

/// Renders a number in decimal.
pub fn usize_to_string(n: usize) -> (s: String)
    ensures
        s@ == dec_str(n as nat),
    decreases n,
{
    if n < 10 {
        String::from_str(digit_str(n))
    } else {
        let mut s = usize_to_string(n / 10);
        s.append(digit_str(n % 10));
        proof {
            assert(s@ =~= dec_str(n as nat));
        }
        s
    }
}

/// Maps an ASCII lower-case letter to its upper-case form; every other
/// character is unchanged.
pub open spec fn upper_char(c: char) -> char {
    if c == 'a' {
        'A'
    } else if c == 'b' {
        'B'
    } else if c == 'c' {
        'C'
    } else if c == 'd' {
        'D'
    } else if c == 'e' {
        'E'
    } else if c == 'f' {
        'F'
    } else if c == 'g' {
        'G'
    } else if c == 'h' {
        'H'
    } else if c == 'i' {
        'I'
    } else if c == 'j' {
        'J'
    } else if c == 'k' {
        'K'
    } else if c == 'l' {
        'L'
    } else if c == 'm' {
        'M'
    } else if c == 'n' {
        'N'
    } else if c == 'o' {
        'O'
    } else if c == 'p' {
        'P'
    } else if c == 'q' {
        'Q'
    } else if c == 'r' {
        'R'
    } else if c == 's' {
        'S'
    } else if c == 't' {
        'T'
    } else if c == 'u' {
        'U'
    } else if c == 'v' {
        'V'
    } else if c == 'w' {
        'W'
    } else if c == 'x' {
        'X'
    } else if c == 'y' {
        'Y'
    } else if c == 'z' {
        'Z'
    } else {
        c
    }
}

/// The ASCII upper-casing of a character sequence.
pub open spec fn upper_chars(s: Seq<char>) -> Seq<char> {
    s.map_values(|c: char| upper_char(c))
}

fn upper_char_exec(c: char) -> (r: char)
    ensures
        r == upper_char(c),
{
    match c {
        'a' => 'A',
        'b' => 'B',
        'c' => 'C',
        'd' => 'D',
        'e' => 'E',
        'f' => 'F',
        'g' => 'G',
        'h' => 'H',
        'i' => 'I',
        'j' => 'J',
        'k' => 'K',
        'l' => 'L',
        'm' => 'M',
        'n' => 'N',
        'o' => 'O',
        'p' => 'P',
        'q' => 'Q',
        'r' => 'R',
        's' => 'S',
        't' => 'T',
        'u' => 'U',
        'v' => 'V',
        'w' => 'W',
        'x' => 'X',
        'y' => 'Y',
        'z' => 'Z',
        _ => c,
    }
}

/// Compares a string, upper-cased, against an upper-case keyword.
pub fn eq_ignore_case(s: &str, keyword: &str) -> (r: bool)
    ensures
        r == (upper_chars(s@) == keyword@),
{
    let n = s.unicode_len();
    let m = keyword.unicode_len();
    if n != m {
        proof {
            assert(upper_chars(s@).len() == s@.len());
        }
        return false;
    }
    let mut i: usize = 0;
    while i < n
        invariant
            i <= n,
            n == s@.len(),
            n == keyword@.len(),
            forall|j: int| 0 <= j < i ==> upper_char(s@[j]) == keyword@[j],
        decreases n - i,
    {
        let cs = upper_char_exec(s.get_char(i));
        let ck = keyword.get_char(i);
        if cs != ck {
            proof {
                assert(upper_chars(s@)[i as int] != keyword@[i as int]);
            }
            return false;
        }
        i += 1;
    }
    proof {
        assert(upper_chars(s@) =~= keyword@);
    }
    true
}

} // verus!
