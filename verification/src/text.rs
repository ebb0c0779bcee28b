//! Small string utilities shared by the rest of the library.
use vstd::prelude::*;
use vstd::string::*;

verus! {

/// Compares two string slices character by character.
pub fn str_eq(a: &str, b: &str) -> (r: bool)
    ensures
        r == (a@ == b@),
{
    let n = a.unicode_len();
    let m = b.unicode_len();
    if n != m {
        return false;
    }
    let mut i: usize = 0;
    while i < n
        invariant
            n == a@.len(),
            m == b@.len(),
            n == m,
            i <= n,
            forall|j: int| 0 <= j < i ==> a@[j] == b@[j],
        decreases n - i,
    {
        if a.get_char(i) != b.get_char(i) {
            return false;
        }
        i += 1;
    }
    assert(a@ =~= b@);
    true
}

/// Appends one character to a `String` (`String::push`).
#[verifier::external_body]
pub(crate) fn push_char(s: &mut String, c: char)
    ensures
        final(s)@ == old(s)@.push(c),
{
    s.push(c);
}


/// The ASCII lowercase of a character: `A`..=`Z` map to `a`..=`z`, every other
/// character is left as it is.
pub open spec fn ascii_lower(c: char) -> char {
    if 'A' <= c <= 'Z' {
        ((c as u32) + 32) as char
    } else {
        c
    }
}

/// `char::to_ascii_lowercase`.
pub fn ascii_lowercase(c: char) -> (r: char)
    ensures
        r == ascii_lower(c),
{
    if 'A' <= c && c <= 'Z' {
        let code: u32 = (c as u32) + 32;
        assert(code < 0xD800);
        (code as u8) as char
    } else {
        c
    }
}

/// Whether `c` has the Unicode `Uppercase` property, as `char::is_uppercase` reports it.
pub uninterp spec fn char_is_uppercase(c: char) -> bool;

/// Whether `c` has a Unicode numeric general category, as `char::is_numeric` reports it.
pub uninterp spec fn char_is_numeric(c: char) -> bool;

/// The Unicode lowercase mapping of a string, as `str::to_lowercase` computes it.
pub uninterp spec fn str_lowercase(s: Seq<char>) -> Seq<char>;

/// Calls `char::is_uppercase`. The contract names its result and states the one
/// fact that the Unicode `Uppercase` property gives for ASCII characters: among
/// them exactly `A`..=`Z` are uppercase. Nothing is stated of other characters.
#[verifier::external_body]
pub(crate) fn is_uppercase(c: char) -> (b: bool)
    ensures
        b == char_is_uppercase(c),
        (c as u32) < 128 ==> (b <==> ('A' <= c <= 'Z')),
{
    c.is_uppercase()
}

/// Calls `char::is_numeric`. The contract names its result and states that among
/// ASCII characters exactly the digits `0`..=`9` are numeric. Nothing is stated
/// of other characters.
#[verifier::external_body]
pub(crate) fn is_numeric(c: char) -> (b: bool)
    ensures
        b == char_is_numeric(c),
        (c as u32) < 128 ==> (b <==> ('0' <= c <= '9')),
{
    c.is_numeric()
}

/// Calls `str::to_lowercase`. The contract names its result and states that a
/// string made only of ASCII characters is lowercased character by character
/// in the ASCII way. Nothing is stated of other strings.
#[verifier::external_body]
pub(crate) fn lowercase(s: &str) -> (r: String)
    ensures
        r@ == str_lowercase(s@),
        (forall|i: int| 0 <= i < s@.len() ==> (s@[i] as u32) < 128) ==> r@ == s@.map_values(
            |c: char| ascii_lower(c),
        ),
{
    s.to_lowercase()
}


/// The pieces of `s` between occurrences of `sep`, as `str::split` with a
/// character pattern yields them: always at least one piece, empty pieces kept.
pub open spec fn split_spec(s: Seq<char>, sep: char) -> Seq<Seq<char>>
    decreases s.len(),
{
    if s.len() == 0 {
        seq![Seq::<char>::empty()]
    } else {
        let prev = split_spec(s.drop_last(), sep);
        if s.last() == sep {
            prev.push(Seq::<char>::empty())
        } else {
            prev.update(prev.len() - 1, prev.last().push(s.last()))
        }
    }
}

/// The pieces joined with `sep` between consecutive pieces, as `[T]::join` does.
pub open spec fn join_spec(parts: Seq<Seq<char>>, sep: Seq<char>) -> Seq<char>
    decreases parts.len(),
{
    if parts.len() == 0 {
        Seq::<char>::empty()
    } else if parts.len() == 1 {
        parts[0]
    } else {
        join_spec(parts.drop_last(), sep) + sep + parts.last()
    }
}

/// Splitting never yields an empty list of pieces.
pub proof fn lemma_split_nonempty(s: Seq<char>, sep: char)
    ensures
        split_spec(s, sep).len() >= 1,
    decreases s.len(),
{
    if s.len() > 0 {
        lemma_split_nonempty(s.drop_last(), sep);
    }
}

proof fn lemma_join_extend_last(parts: Seq<Seq<char>>, sep: Seq<char>, c: char)
    requires
        parts.len() >= 1,
    ensures
        join_spec(parts.update(parts.len() - 1, parts.last().push(c)), sep) == join_spec(
            parts,
            sep,
        ).push(c),
{
    let q = parts.update(parts.len() - 1, parts.last().push(c));
    if parts.len() == 1 {
    } else {
        assert(q.drop_last() =~= parts.drop_last());
        assert(join_spec(q, sep) =~= join_spec(parts, sep).push(c));
    }
}

/// Joining the pieces of a split with the separator gives back the text.
pub proof fn law_join_split_round_trip(s: Seq<char>, sep: char)
    ensures
        join_spec(split_spec(s, sep), seq![sep]) == s,
    decreases s.len(),
{
    if s.len() > 0 {
        let prev = split_spec(s.drop_last(), sep);
        law_join_split_round_trip(s.drop_last(), sep);
        lemma_split_nonempty(s.drop_last(), sep);
        if s.last() == sep {
            let q = prev.push(Seq::<char>::empty());
            assert(q.drop_last() =~= prev);
            assert(join_spec(q, seq![sep]) =~= s);
        } else {
            lemma_join_extend_last(prev, seq![sep], s.last());
            assert(s.drop_last().push(s.last()) =~= s);
        }
    }
}

/// The views of a vector of strings.
pub open spec fn strings_view(v: Seq<String>) -> Seq<Seq<char>> {
    v.map_values(|x: String| x@)
}

/// Splits `s` at every occurrence of `sep` (`str::split` with a character).
pub fn split_on(s: &str, sep: char) -> (parts: Vec<String>)
    ensures
        strings_view(parts@) == split_spec(s@, sep),
{
    let n = s.unicode_len();
    let mut parts: Vec<String> = Vec::new();
    let mut cur = String::new();
    let mut i: usize = 0;
    while i < n
        invariant
            n == s@.len(),
            i <= n,
            strings_view(parts@).push(cur@) == split_spec(s@.take(i as int), sep),
        decreases n - i,
    {
        let c = s.get_char(i);
        let ghost prev = split_spec(s@.take(i as int), sep);
        assert(s@.take(i + 1).drop_last() =~= s@.take(i as int));
        proof {
            lemma_split_nonempty(s@.take(i as int), sep);
        }
        if c == sep {
            parts.push(cur);
            cur = String::new();
            assert(strings_view(parts@).push(cur@) =~= prev.push(Seq::<char>::empty()));
        } else {
            push_char(&mut cur, c);
            assert(strings_view(parts@).push(cur@) =~= prev.update(
                prev.len() - 1,
                prev.last().push(c),
            ));
        }
        i += 1;
    }
    parts.push(cur);
    assert(s@.take(n as int) =~= s@);
    assert(strings_view(parts@) =~= split_spec(s@, sep));
    parts
}

/// Joins the strings with `sep` between consecutive ones (`[String]::join`).
pub fn join_with(parts: &Vec<String>, sep: &str) -> (r: String)
    ensures
        r@ == join_spec(strings_view(parts@), sep@),
{
    let mut r = String::new();
    let n = parts.len();
    let mut i: usize = 0;
    while i < n
        invariant
            n == parts@.len(),
            i <= n,
            r@ == join_spec(strings_view(parts@).take(i as int), sep@),
        decreases n - i,
    {
        let ghost v = strings_view(parts@);
        assert(v.take(i + 1).drop_last() =~= v.take(i as int));
        if i != 0 {
            r.append(sep);
        } else {
            assert(r@ =~= Seq::<char>::empty());
        }
        r.append(parts[i].as_str());
        assert(v.take(i + 1).last() == parts@[i as int]@);
        proof {
            if i == 0 {
                assert(r@ =~= v.take(1)[0]);
            }
        }
        i += 1;
    }
    assert(strings_view(parts@).take(n as int) =~= strings_view(parts@));
    r
}

/// Whether `p` is a prefix of `s`.
pub open spec fn has_prefix(s: Seq<char>, p: Seq<char>) -> bool {
    p.len() <= s.len() && s.subrange(0, p.len() as int) == p
}

/// `str::starts_with` with a string pattern.
pub fn starts_with(s: &str, p: &str) -> (r: bool)
    ensures
        r == has_prefix(s@, p@),
{
    let n = s.unicode_len();
    let m = p.unicode_len();
    if m > n {
        return false;
    }
    let mut i: usize = 0;
    while i < m
        invariant
            n == s@.len(),
            m == p@.len(),
            m <= n,
            i <= m,
            forall|j: int| 0 <= j < i ==> s@[j] == p@[j],
        decreases m - i,
    {
        if s.get_char(i) != p.get_char(i) {
            assert(s@.subrange(0, m as int)[i as int] != p@[i as int]);
            return false;
        }
        i += 1;
    }
    assert(s@.subrange(0, m as int) =~= p@);
    true
}

/// `s` with every leading occurrence of `c` removed (`str::trim_start_matches`).
pub open spec fn trim_leading(s: Seq<char>, c: char) -> Seq<char>
    decreases s.len(),
{
    if s.len() > 0 && s[0] == c {
        trim_leading(s.drop_first(), c)
    } else {
        s
    }
}

proof fn lemma_trim_leading_skip(s: Seq<char>, c: char, k: int)
    requires
        0 <= k <= s.len(),
        forall|j: int| 0 <= j < k ==> s[j] == c,
        k == s.len() || s[k] != c,
    ensures
        trim_leading(s, c) == s.skip(k),
    decreases k,
{
    if k > 0 {
        lemma_trim_leading_skip(s.drop_first(), c, k - 1);
        assert(s.drop_first().skip(k - 1) =~= s.skip(k));
    } else {
        assert(s.skip(0) =~= s);
    }
}

/// Removes every leading occurrence of `c` (`str::trim_start_matches` with a character).
pub fn trim_start_char(s: &str, c: char) -> (r: &str)
    ensures
        r@ == trim_leading(s@, c),
{
    let n = s.unicode_len();
    let mut k: usize = 0;
    while k < n && s.get_char(k) == c
        invariant
            n == s@.len(),
            k <= n,
            forall|j: int| 0 <= j < k ==> s@[j] == c,
        decreases n - k,
    {
        k += 1;
    }
    proof {
        lemma_trim_leading_skip(s@, c, k as int);
    }
    let r = s.substring_char(k, n);
    assert(r@ =~= s@.skip(k as int));
    r
}

} // verus!
