//! Identifier case conversions used when naming generated items.
use vstd::prelude::*;
use vstd::string::*;

use crate::text::{
    ascii_lower, ascii_lowercase, char_is_numeric, char_is_uppercase, is_numeric, is_uppercase,
    lowercase, push_char, str_lowercase,
};

verus! {

/// Whether `char::is_uppercase` holds of `c`: for an ASCII character exactly
/// `A`..=`Z`, for any other as the Unicode `Uppercase` property says.
pub open spec fn is_upper(c: char) -> bool {
    if (c as u32) < 128 {
        'A' <= c <= 'Z'
    } else {
        char_is_uppercase(c)
    }
}

/// What one character of the input becomes in snake case: an uppercase
/// character after the first position is preceded by `_`; every character is
/// lowered in the ASCII way.
pub open spec fn snake_piece(i: int, c: char) -> Seq<char> {
    if is_upper(c) && i > 0 {
        seq!['_', ascii_lower(c)]
    } else {
        seq![ascii_lower(c)]
    }
}

/// The snake case of an identifier, one piece per input character.
pub open spec fn snake_case(s: Seq<char>) -> Seq<char>
    decreases s.len(),
{
    if s.len() == 0 {
        Seq::<char>::empty()
    } else {
        snake_case(s.drop_last()) + snake_piece(s.len() - 1, s.last())
    }
}

/// The number of uppercase characters of `s` after its first position.
pub open spec fn uppercase_after_first(s: Seq<char>) -> nat
    decreases s.len(),
{
    if s.len() == 0 {
        0
    } else {
        uppercase_after_first(s.drop_last()) + if is_upper(s.last()) && s.len() > 1 {
            1nat
        } else {
            0nat
        }
    }
}

/// Snake case adds one `_` for each uppercase character after the first
/// position, and keeps one character for each input character.
pub proof fn law_snake_case_length(s: Seq<char>)
    ensures
        snake_case(s).len() == s.len() + uppercase_after_first(s),
    decreases s.len(),
{
    if s.len() > 0 {
        law_snake_case_length(s.drop_last());
    }
}

/// Snake case holds no ASCII capital letter.
pub proof fn law_snake_case_has_no_ascii_capitals(s: Seq<char>)
    ensures
        forall|i: int| 0 <= i < snake_case(s).len() ==> !('A' <= #[trigger] snake_case(s)[i] <= 'Z'),
    decreases s.len(),
{
    if s.len() > 0 {
        let init = s.drop_last();
        law_snake_case_has_no_ascii_capitals(init);
        let piece = snake_piece(s.len() - 1, s.last());
        assert forall|i: int| 0 <= i < snake_case(s).len() implies !('A' <= #[trigger] snake_case(s)[i]
            <= 'Z') by {
            if i < snake_case(init).len() {
                assert(snake_case(s)[i] == snake_case(init)[i]);
            } else {
                assert(snake_case(s)[i] == piece[i - snake_case(init).len()]);
            }
        }
    }
}

/// A string of ASCII characters without capitals is its own snake case.
proof fn lemma_snake_case_keeps_lower_ascii(t: Seq<char>)
    requires
        forall|i: int| 0 <= i < t.len() ==> (#[trigger] t[i] as u32) < 128 && !('A' <= t[i] <= 'Z'),
    ensures
        snake_case(t) == t,
    decreases t.len(),
{
    if t.len() > 0 {
        let init = t.drop_last();
        assert forall|i: int| 0 <= i < init.len() implies (#[trigger] init[i] as u32) < 128 && !('A'
            <= init[i] <= 'Z') by {
            assert(init[i] == t[i]);
        }
        lemma_snake_case_keeps_lower_ascii(init);
        assert(t.last() == t[t.len() - 1]);
        assert(snake_case(t) =~= t);
    }
}

/// The snake case of an ASCII string is ASCII.
proof fn lemma_snake_case_ascii(s: Seq<char>)
    requires
        forall|i: int| 0 <= i < s.len() ==> (#[trigger] s[i] as u32) < 128,
    ensures
        forall|i: int| 0 <= i < snake_case(s).len() ==> (#[trigger] snake_case(s)[i] as u32) < 128,
    decreases s.len(),
{
    if s.len() > 0 {
        let init = s.drop_last();
        assert forall|i: int| 0 <= i < init.len() implies (#[trigger] init[i] as u32) < 128 by {
            assert(init[i] == s[i]);
        }
        lemma_snake_case_ascii(init);
        assert(s.last() == s[s.len() - 1]);
        let piece = snake_piece(s.len() - 1, s.last());
        assert forall|i: int| 0 <= i < snake_case(s).len() implies (#[trigger] snake_case(s)[i] as u32)
            < 128 by {
            if i < snake_case(init).len() {
                assert(snake_case(s)[i] == snake_case(init)[i]);
            } else {
                assert(snake_case(s)[i] == piece[i - snake_case(init).len()]);
            }
        }
    }
}

/// For an ASCII identifier, taking the snake case twice gives what taking it
/// once gives.
pub proof fn law_snake_case_idempotent_on_ascii(s: Seq<char>)
    requires
        forall|i: int| 0 <= i < s.len() ==> (#[trigger] s[i] as u32) < 128,
    ensures
        snake_case(snake_case(s)) == snake_case(s),
{
    lemma_snake_case_ascii(s);
    law_snake_case_has_no_ascii_capitals(s);
    let t = snake_case(s);
    assert forall|i: int| 0 <= i < t.len() implies (#[trigger] t[i] as u32) < 128 && !('A' <= t[i]
        <= 'Z') by {}
    lemma_snake_case_keeps_lower_ascii(t);
}

/// Whether every character is uppercase or numeric.
pub open spec fn all_upper_or_numeric(s: Seq<char>) -> bool {
    forall|i: int| 0 <= i < s.len() ==> char_is_uppercase(s[i]) || char_is_numeric(s[i])
}

/// The Pascal case of an identifier: an identifier written in capitals and
/// digits only keeps its first character and has the rest lowered; any other
/// identifier is left as it is.
pub open spec fn pascal_case(s: Seq<char>) -> Seq<char> {
    if all_upper_or_numeric(s) {
        if s.len() == 0 {
            Seq::<char>::empty()
        } else {
            seq![s[0]] + str_lowercase(s.drop_first())
        }
    } else {
        s
    }
}

/// Converts an identifier such as `NativeBridge` to snake case (`native_bridge`).
pub fn to_snake_case(s: &str) -> (r: String)
    ensures
        r@ == snake_case(s@),
{
    let n = s.unicode_len();
    let mut r = String::new();
    let mut i: usize = 0;
    while i < n
        invariant
            n == s@.len(),
            i <= n,
            r@ == snake_case(s@.take(i as int)),
        decreases n - i,
    {
        let c = s.get_char(i);
        assert(s@.take(i + 1).drop_last() =~= s@.take(i as int));
        let upper = is_uppercase(c);
        assert(upper == is_upper(c));
        if upper && i > 0 {
            push_char(&mut r, '_');
        }
        push_char(&mut r, ascii_lowercase(c));
        assert(r@ =~= snake_case(s@.take(i + 1)));
        i += 1;
    }
    assert(s@.take(n as int) =~= s@);
    r
}

/// Converts an all-capitals identifier such as `UUID` to Pascal case (`Uuid`);
/// other identifiers are returned unchanged.
pub fn to_pascal_case(s: &str) -> (r: String)
    ensures
        r@ == pascal_case(s@),
{
    let n = s.unicode_len();
    let mut i: usize = 0;
    while i < n
        invariant
            n == s@.len(),
            i <= n,
            forall|j: int| 0 <= j < i ==> char_is_uppercase(s@[j]) || char_is_numeric(s@[j]),
        decreases n - i,
    {
        let c = s.get_char(i);
        if !(is_uppercase(c) || is_numeric(c)) {
            let r = String::from_str(s);
            return r;
        }
        i += 1;
    }
    if n == 0 {
        return String::new();
    }
    let rest = s.substring_char(1, n);
    assert(rest@ =~= s@.drop_first());
    let lowered = lowercase(rest);
    let mut r = String::new();
    push_char(&mut r, s.get_char(0));
    r.append(lowered.as_str());
    assert(r@ =~= seq![s@[0]] + str_lowercase(s@.drop_first()));
    r
}

/// Pascal case changes an identifier only when every character of it is
/// uppercase or numeric: then it keeps the first character and lowercases the
/// rest; an identifier with a character that is neither comes back unchanged.
pub proof fn law_pascal_case_changes_only_capital_names(s: Seq<char>)
    ensures
        (exists|i: int|
            0 <= i < s.len() && !char_is_uppercase(#[trigger] s[i]) && !char_is_numeric(s[i]))
            ==> pascal_case(s) == s,
        s.len() > 0 && (forall|i: int|
            0 <= i < s.len() ==> char_is_uppercase(#[trigger] s[i]) || char_is_numeric(s[i]))
            ==> pascal_case(s)[0] == s[0] && pascal_case(s).drop_first() == str_lowercase(
            s.drop_first(),
        ),
        s.len() == 0 ==> pascal_case(s).len() == 0,
{
    if s.len() > 0 && (forall|i: int|
        0 <= i < s.len() ==> char_is_uppercase(#[trigger] s[i]) || char_is_numeric(s[i])) {
        assert((seq![s[0]] + str_lowercase(s.drop_first())).drop_first() =~= str_lowercase(
            s.drop_first(),
        ));
    }
}

} // verus!
