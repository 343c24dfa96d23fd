//! Character-string utilities shared by the template engine and the
//! reconciliation logic. Object keys, metadata fields and identifiers are
//! handled as character vectors, with `String` only at the boundary.

use vstd::prelude::*;

verus! {

/// `needle` occurs in `hay` starting at index `i`.
pub open spec fn matches_at(hay: Seq<char>, needle: Seq<char>, i: int) -> bool {
    &&& 0 <= i
    &&& i + needle.len() <= hay.len()
    &&& hay.subrange(i, i + needle.len() as int) == needle
}

/// The character `c` occurs in `hay`.
pub open spec fn contains_char(hay: Seq<char>, c: char) -> bool {
    exists|i: int| 0 <= i < hay.len() && hay[i] == c
}

/// Returns whether the character `c` occurs in `hay`.
pub fn find_char(hay: &Vec<char>, c: char) -> (r: bool)
    ensures
        r == contains_char(hay@, c),
{
    let mut i: usize = 0;
    while i < hay.len()
        invariant
            i <= hay@.len(),
            forall|j: int| 0 <= j < i ==> hay@[j] != c,
        decreases hay@.len() - i,
    {
        if hay[i] == c {
            return true;
        }
        i += 1;
    }
    false
}

/// Returns whether `needle` occurs in `hay` starting at `i`.
pub fn matches_at_exec(hay: &Vec<char>, needle: &Vec<char>, i: usize) -> (r: bool)
    requires
        i <= hay@.len(),
    ensures
        r == matches_at(hay@, needle@, i as int),
{
    if hay.len() - i < needle.len() {
        assert(!matches_at(hay@, needle@, i as int));
        return false;
    }
    let mut j: usize = 0;
    while j < needle.len()
        invariant
            j <= needle@.len(),
            i + needle@.len() <= hay@.len(),
            hay@.len() <= usize::MAX,
            forall|k: int| 0 <= k < j ==> hay@[i + k] == needle@[k],
        decreases needle@.len() - j,
    {
        if hay[i + j] != needle[j] {
            assert(hay@.subrange(i as int, i + needle@.len() as int)[j as int] != needle@[j as int]);
            return false;
        }
        j += 1;
    }
    assert(hay@.subrange(i as int, i + needle@.len() as int) =~= needle@);
    true
}

/// Appends all of `src` onto `dst`.
pub fn push_all(dst: &mut Vec<char>, src: &Vec<char>)
    ensures
        final(dst)@ == old(dst)@ + src@,
{
    let mut i: usize = 0;
    while i < src.len()
        invariant
            i <= src@.len(),
            dst@ == old(dst)@ + src@.subrange(0, i as int),
        decreases src@.len() - i,
    {
        dst.push(src[i]);
        assert(dst@ =~= old(dst)@ + src@.subrange(0, i + 1));
        i += 1;
    }
    assert(dst@ =~= old(dst)@ + src@);
}

/// Equality of two character vectors.
pub fn chars_eq(a: &Vec<char>, b: &Vec<char>) -> (r: bool)
    ensures
        r == (a@ == b@),
{
    if a.len() != b.len() {
        return false;
    }
    let mut i: usize = 0;
    while i < a.len()
        invariant
            i <= a@.len(),
            a@.len() == b@.len(),
            forall|j: int| 0 <= j < i ==> a@[j] == b@[j],
        decreases a@.len() - i,
    {
        if a[i] != b[i] {
            return false;
        }
        i += 1;
    }
    assert(a@ =~= b@);
    true
}

/// Converts a string slice into the vector of its characters.
pub fn to_char_vec(s: &str) -> (r: Vec<char>)
    ensures
        r@ == s@,
{
    let n = s.unicode_len();
    let mut out: Vec<char> = Vec::new();
    let mut i: usize = 0;
    while i < n
        invariant
            i <= n,
            n == s@.len(),
            out@ == s@.subrange(0, i as int),
        decreases n - i,
    {
        out.push(s.get_char(i));
        assert(out@ =~= s@.subrange(0, i + 1));
        i += 1;
    }
    assert(out@ =~= s@);
    out
}

/// Copies an optional string; unlike a derived clone, the copy is known
/// to equal the original.
pub fn dup_opt_string(o: &Option<String>) -> (r: Option<String>)
    ensures
        r == *o,
{
    match o {
        Some(s) => Some(s.clone()),
        None => None,
    }
}

/// Equality of two string slices, by their character sequences.
pub(crate) fn str_eq(a: &str, b: &str) -> (r: bool)
    ensures
        r == (a@ == b@),
{
    chars_eq(&to_char_vec(a), &to_char_vec(b))
}

/// Relies on `String::push`: appends exactly the given character.
#[verifier::external_body]
fn push_char(s: &mut String, c: char)
    ensures
        final(s)@ == old(s)@.push(c),
{
    s.push(c);
}

/// Builds a `String` out of a vector of characters.
pub fn chars_to_string(v: &Vec<char>) -> (r: String)
    ensures
        r@ == v@,
{
    let mut out = String::new();
    let mut i: usize = 0;
    while i < v.len()
        invariant
            i <= v@.len(),
            out@ == v@.subrange(0, i as int),
        decreases v@.len() - i,
    {
        push_char(&mut out, v[i]);
        assert(out@ =~= v@.subrange(0, i + 1));
        i += 1;
    }
    assert(out@ =~= v@);
    out
}

/// Joins the strings in `lines` with the separator `sep`.
pub open spec fn spec_join(lines: Seq<Seq<char>>, sep: char) -> Seq<char>
    decreases lines.len(),
{
    if lines.len() == 0 {
        Seq::empty()
    } else if lines.len() == 1 {
        lines[0]
    } else {
        lines[0] + seq![sep] + spec_join(lines.drop_first(), sep)
    }
}

/// Joins `lines` with the separator `sep`, as the query publishes its
/// accepted metadata lines joined by newlines.
pub fn join_chars(lines: &Vec<Vec<char>>, sep: char) -> (r: Vec<char>)
    ensures
        r@ == spec_join(lines.deep_view(), sep),
{
    let mut out: Vec<char> = Vec::new();
    if lines.len() == 0 {
        return out;
    }
    push_all(&mut out, &lines[0]);
    let mut i: usize = 1;
    while i < lines.len()
        invariant
            1 <= i <= lines@.len(),
            out@ == spec_join(lines.deep_view().take(i as int), sep),
            lines.deep_view().len() == lines@.len(),
        decreases lines@.len() - i,
    {
        proof {
            lemma_join_push(lines.deep_view().take(i as int), lines.deep_view()[i as int], sep);
            assert(lines.deep_view().take(i as int).push(lines.deep_view()[i as int])
                =~= lines.deep_view().take(i + 1));
        }
        out.push(sep);
        push_all(&mut out, &lines[i]);
        i += 1;
    }
    assert(lines.deep_view().take(i as int) =~= lines.deep_view());
    out
}

/// Appending one more line to a non-empty join appends the separator and
/// then the line.
proof fn lemma_join_push(lines: Seq<Seq<char>>, last: Seq<char>, sep: char)
    requires
        lines.len() >= 1,
    ensures
        spec_join(lines.push(last), sep) == spec_join(lines, sep) + seq![sep] + last,
    decreases lines.len(),
{
    let pushed = lines.push(last);
    if lines.len() == 1 {
        assert(pushed.len() == 2);
        assert(pushed.drop_first() =~= seq![last]);
        assert(spec_join(pushed, sep) == pushed[0] + seq![sep] + spec_join(pushed.drop_first(), sep));
        assert(spec_join(pushed.drop_first(), sep) == last);
        assert(pushed[0] == lines[0]);
    } else {
        lemma_join_push(lines.drop_first(), last, sep);
        assert(pushed.drop_first() =~= lines.drop_first().push(last));
        assert(spec_join(pushed, sep) == pushed[0] + seq![sep] + spec_join(pushed.drop_first(), sep));
        assert(spec_join(lines, sep) + seq![sep] + last
            =~= lines[0] + seq![sep] + (spec_join(lines.drop_first(), sep) + seq![sep] + last));
    }
}

/// Extending a join with a fresh empty segment appends just the
/// separator.
pub proof fn lemma_join_sep_extend(xs: Seq<Seq<char>>, cur: Seq<char>, sep: char)
    ensures
        spec_join(xs.push(cur).push(Seq::empty()), sep) == spec_join(xs.push(cur), sep).push(sep),
{
    lemma_join_push(xs.push(cur), Seq::empty(), sep);
    assert(spec_join(xs.push(cur), sep) + seq![sep] + Seq::<char>::empty()
        =~= spec_join(xs.push(cur), sep).push(sep));
}

/// Pushing a character onto the last segment pushes it onto the join.
pub proof fn lemma_join_last_extend(xs: Seq<Seq<char>>, cur: Seq<char>, c: char, sep: char)
    ensures
        spec_join(xs.push(cur.push(c)), sep) == spec_join(xs.push(cur), sep).push(c),
{
    if xs.len() == 0 {
        assert(xs.push(cur.push(c)) =~= seq![cur.push(c)]);
        assert(xs.push(cur) =~= seq![cur]);
        assert(spec_join(seq![cur.push(c)], sep) == cur.push(c));
        assert(spec_join(seq![cur], sep) == cur);
    } else {
        lemma_join_push(xs, cur.push(c), sep);
        lemma_join_push(xs, cur, sep);
        assert(spec_join(xs, sep) + seq![sep] + cur.push(c)
            =~= (spec_join(xs, sep) + seq![sep] + cur).push(c));
    }
}

/// ASCII lowercase of a character; anything but an ASCII capital letter
/// is left as it is.
pub open spec fn spec_to_lower(c: char) -> char {
    match c {
        'A' => 'a', 'B' => 'b', 'C' => 'c', 'D' => 'd', 'E' => 'e',
        'F' => 'f', 'G' => 'g', 'H' => 'h', 'I' => 'i', 'J' => 'j',
        'K' => 'k', 'L' => 'l', 'M' => 'm', 'N' => 'n', 'O' => 'o',
        'P' => 'p', 'Q' => 'q', 'R' => 'r', 'S' => 's', 'T' => 't',
        'U' => 'u', 'V' => 'v', 'W' => 'w', 'X' => 'x', 'Y' => 'y',
        'Z' => 'z', _ => c,
    }
}

/// ASCII lowercase of a string.
pub open spec fn spec_lower(s: Seq<char>) -> Seq<char> {
    s.map_values(|c: char| spec_to_lower(c))
}

fn to_lower_char(c: char) -> (r: char)
    ensures
        r == spec_to_lower(c),
{
    match c {
        'A' => 'a', 'B' => 'b', 'C' => 'c', 'D' => 'd', 'E' => 'e',
        'F' => 'f', 'G' => 'g', 'H' => 'h', 'I' => 'i', 'J' => 'j',
        'K' => 'k', 'L' => 'l', 'M' => 'm', 'N' => 'n', 'O' => 'o',
        'P' => 'p', 'Q' => 'q', 'R' => 'r', 'S' => 's', 'T' => 't',
        'U' => 'u', 'V' => 'v', 'W' => 'w', 'X' => 'x', 'Y' => 'y',
        'Z' => 'z', _ => c,
    }
}

/// ASCII-lowercases every character.
pub fn lower_chars(v: &Vec<char>) -> (r: Vec<char>)
    ensures
        r@ == spec_lower(v@),
{
    let mut out: Vec<char> = Vec::new();
    let mut i: usize = 0;
    while i < v.len()
        invariant
            i <= v@.len(),
            out@.len() == i,
            forall|j: int| 0 <= j < i ==> out@[j] == spec_to_lower(v@[j]),
        decreases v@.len() - i,
    {
        out.push(to_lower_char(v[i]));
        i += 1;
    }
    assert(out@ =~= spec_lower(v@));
    out
}

/// Decimal digit as a character.
pub open spec fn spec_digit_char(d: int) -> char {
    if d == 0 { '0' }
    else if d == 1 { '1' }
    else if d == 2 { '2' }
    else if d == 3 { '3' }
    else if d == 4 { '4' }
    else if d == 5 { '5' }
    else if d == 6 { '6' }
    else if d == 7 { '7' }
    else if d == 8 { '8' }
    else { '9' }
}

/// Decimal rendering of a non-negative integer.
pub open spec fn spec_dec(n: int) -> Seq<char>
    decreases n,
{
    if n < 10 {
        seq![spec_digit_char(n)]
    } else {
        spec_dec(n / 10).push(spec_digit_char(n % 10))
    }
}

fn digit_char(d: u32) -> (r: char)
    requires
        d < 10,
    ensures
        r == spec_digit_char(d as int),
{
    match d {
        0 => '0',
        1 => '1',
        2 => '2',
        3 => '3',
        4 => '4',
        5 => '5',
        6 => '6',
        7 => '7',
        8 => '8',
        _ => '9',
    }
}

/// Renders `n` in decimal.
pub fn u32_to_chars(n: u32) -> (r: Vec<char>)
    ensures
        r@ == spec_dec(n as int),
    decreases n,
{
    if n < 10 {
        let mut out: Vec<char> = Vec::new();
        out.push(digit_char(n));
        assert(out@ =~= spec_dec(n as int));
        out
    } else {
        let mut out = u32_to_chars(n / 10);
        out.push(digit_char(n % 10));
        out
    }
}

} // verus!
