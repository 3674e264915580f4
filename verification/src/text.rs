//! Text: white space, case, decimal numbers and the search for a separator.

use vstd::prelude::*;
use vstd::utf8::is_ascii_chars;

verus! {

// ── White space ──────────────────────────────────────────────────────────────

/// The Unicode property `White_Space`.
pub open spec fn is_white_space(c: char) -> bool {
    ||| '\u{9}' <= c <= '\u{d}'
    ||| c == '\u{20}'
    ||| c == '\u{85}'
    ||| c == '\u{a0}'
    ||| c == '\u{1680}'
    ||| '\u{2000}' <= c <= '\u{200a}'
    ||| c == '\u{2028}'
    ||| c == '\u{2029}'
    ||| c == '\u{202f}'
    ||| c == '\u{205f}'
    ||| c == '\u{3000}'
}

/// Nothing but white space (the empty text is blank too).
pub open spec fn is_blank(s: Seq<char>) -> bool {
    forall|i: int| 0 <= i < s.len() ==> is_white_space(#[trigger] s[i])
}

/// `s` without its leading white space.
pub open spec fn trimmed_start(s: Seq<char>) -> Seq<char>
    decreases s.len(),
{
    if s.len() > 0 && is_white_space(s[0]) {
        trimmed_start(s.drop_first())
    } else {
        s
    }
}

/// `s` without its trailing white space.
pub open spec fn trimmed_end(s: Seq<char>) -> Seq<char>
    decreases s.len(),
{
    if s.len() > 0 && is_white_space(s.last()) {
        trimmed_end(s.drop_last())
    } else {
        s
    }
}

/// `s` without the white space around it.
pub open spec fn trimmed(s: Seq<char>) -> Seq<char> {
    trimmed_end(trimmed_start(s))
}

/// `str::trim` of the standard library: the text without its leading and
/// trailing white space, white space being the Unicode property `White_Space`.
pub assume_specification[ str::trim ](s: &str) -> (r: &str)
    ensures
        r@ == trimmed(s@),
;

proof fn lemma_trimmed_start_blank(s: Seq<char>)
    ensures
        is_blank(s) <==> trimmed_start(s).len() == 0,
        trimmed_start(s).len() > 0 ==> !is_white_space(trimmed_start(s)[0]),
        trimmed_start(s).len() <= s.len(),
    decreases s.len(),
{
    if s.len() > 0 && is_white_space(s[0]) {
        let rest = s.drop_first();
        lemma_trimmed_start_blank(rest);
        if is_blank(rest) {
            assert forall|i: int| 0 <= i < s.len() implies is_white_space(#[trigger] s[i]) by {
                if i > 0 {
                    assert(s[i] == rest[i - 1]);
                }
            }
        } else {
            let j = choose|j: int| 0 <= j < rest.len() && !is_white_space(#[trigger] rest[j]);
            assert(!is_white_space(s[j + 1]));
        }
    }
}

proof fn lemma_trimmed_end_keeps_first(s: Seq<char>)
    requires
        s.len() > 0 ==> !is_white_space(s[0]),
    ensures
        s.len() > 0 ==> trimmed_end(s).len() > 0 && trimmed_end(s)[0] == s[0],
        s.len() == 0 ==> trimmed_end(s).len() == 0,
        trimmed_end(s).len() > 0 ==> !is_white_space(trimmed_end(s).last()),
        trimmed_end(s).len() <= s.len(),
    decreases s.len(),
{
    if s.len() > 0 && is_white_space(s.last()) {
        lemma_trimmed_end_keeps_first(s.drop_last());
    }
}

/// Trimming leaves nothing exactly of a blank text.
pub proof fn trimmed_is_empty_iff_blank(s: Seq<char>)
    ensures
        trimmed(s).len() == 0 <==> is_blank(s),
{
    lemma_trimmed_start_blank(s);
    lemma_trimmed_end_keeps_first(trimmed_start(s));
}

/// A trimmed text has no white space at either end, so trimming it again
/// changes nothing.
pub proof fn trimming_is_idempotent(s: Seq<char>)
    ensures
        trimmed(trimmed(s)) == trimmed(s),
        trimmed(s).len() > 0 ==> {
            &&& !is_white_space(trimmed(s)[0])
            &&& !is_white_space(trimmed(s).last())
        },
{
    lemma_trimmed_start_blank(s);
    lemma_trimmed_end_keeps_first(trimmed_start(s));
}

proof fn lemma_trimmed_start_cut(s: Seq<char>)
    ensures
        ({
            let n = s.len() - trimmed_start(s).len();
            &&& 0 <= n <= s.len()
            &&& is_blank(s.take(n))
            &&& s == s.take(n) + trimmed_start(s)
        }),
    decreases s.len(),
{
    let n = s.len() - trimmed_start(s).len();
    if s.len() > 0 && is_white_space(s[0]) {
        let rest = s.drop_first();
        lemma_trimmed_start_cut(rest);
        let m = rest.len() - trimmed_start(rest).len();
        assert forall|i: int| 0 <= i < n implies is_white_space(#[trigger] s.take(n)[i]) by {
            if i > 0 {
                assert(s.take(n)[i] == rest.take(m)[i - 1]);
            }
        }
        assert(s =~= s.take(1) + rest);
        assert(s.take(n) =~= s.take(1) + rest.take(m));
        assert(s =~= s.take(n) + trimmed_start(s));
    } else {
        assert(s =~= s.take(0) + s);
    }
}

proof fn lemma_trimmed_end_cut(s: Seq<char>)
    ensures
        ({
            let n = trimmed_end(s).len() as int;
            &&& 0 <= n <= s.len()
            &&& is_blank(s.skip(n))
            &&& s == trimmed_end(s) + s.skip(n)
        }),
    decreases s.len(),
{
    let n = trimmed_end(s).len() as int;
    if s.len() > 0 && is_white_space(s.last()) {
        let init = s.drop_last();
        lemma_trimmed_end_cut(init);
        assert forall|i: int| 0 <= i < s.len() - n implies is_white_space(
            #[trigger] s.skip(n)[i],
        ) by {
            if i < init.len() - n {
                assert(s.skip(n)[i] == init.skip(n)[i]);
            }
        }
        assert(s =~= init.push(s.last()));
        assert(s.skip(n) =~= init.skip(n).push(s.last()));
        assert(s =~= trimmed_end(s) + s.skip(n));
    } else {
        assert(s =~= s + s.skip(n));
    }
}

/// Trimming takes white space from the two ends and nothing else: the text is
/// what is left, with something blank in front of it and behind it.
pub proof fn trimming_takes_only_white_space(s: Seq<char>)
    ensures
        exists|front: Seq<char>, back: Seq<char>|
            #[trigger] is_blank(front) && #[trigger] is_blank(back) && s == front + trimmed(s) + back,
{
    let t = trimmed_start(s);
    lemma_trimmed_start_cut(s);
    lemma_trimmed_end_cut(t);
    let front = s.take(s.len() - t.len());
    let back = t.skip(trimmed_end(t).len() as int);
    assert(s =~= front + trimmed(s) + back);
    assert(is_blank(front) && is_blank(back));
}

/// A text that neither begins nor ends with white space is left as it is.
pub proof fn trimmed_texts_are_left_alone(s: Seq<char>)
    requires
        s.len() > 0 ==> !is_white_space(s[0]) && !is_white_space(s.last()),
    ensures
        trimmed(s) == s,
{
}

/// In ASCII, white space is the blank and the characters from the tabulator to
/// the carriage return; the characters of a printed text are none.
pub proof fn white_space_of_ascii(c: char)
    requires
        (c as u32) < 0x80,
    ensures
        is_white_space(c) <==> c == ' ' || c == '\t' || c == '\n' || c == '\u{b}' || c == '\u{c}'
            || c == '\r',
{
}

/// Does `text` hold anything but white space?
pub(crate) fn has_content(text: &str) -> (r: bool)
    ensures
        r == !is_blank(text@),
{
    let t = text.trim();
    proof {
        trimmed_is_empty_iff_blank(text@);
    }
    !t.is_empty()
}

/// Do two texts hold the same characters?
pub(crate) fn same_text(a: &str, b: &str) -> (r: bool)
    ensures
        r == (a@ == b@),
{
    a.to_owned() == b.to_owned()
}

// ── Case ─────────────────────────────────────────────────────────────────────

/// What `str::to_lowercase` returns, by the Unicode case tables.
pub uninterp spec fn lowercase(s: Seq<char>) -> Seq<char>;

/// The lower-case letter of an ASCII capital; any other character itself.
pub open spec fn ascii_lower(c: char) -> char {
    if 'A' <= c <= 'Z' {
        (c as u32 + 32) as char
    } else {
        c
    }
}

/// Only the capitals from A to Z have another lower-case letter, 32 numbers behind
/// them, and a lower-case letter is its own.
pub proof fn capitals_have_lower_case_letters(c: char)
    ensures
        'A' <= c <= 'Z' ==> 'a' <= ascii_lower(c) <= 'z' && ascii_lower(c) as u32 - 'a' as u32
            == c as u32 - 'A' as u32,
        !('A' <= c <= 'Z') ==> ascii_lower(c) == c,
        ascii_lower(ascii_lower(c)) == ascii_lower(c),
{
}

/// `str::to_lowercase` of the standard library. Its result depends on the text
/// alone; on ASCII it replaces each capital by its lower-case letter.
pub assume_specification[ str::to_lowercase ](s: &str) -> (r: String)
    ensures
        r@ == lowercase(s@),
        is_ascii_chars(s@) ==> r@ == s@.map_values(|c: char| ascii_lower(c)),
;

// ── Decimal numbers ──────────────────────────────────────────────────────────

pub open spec fn digit(n: nat) -> char {
    ('0' as u32 + n) as char
}

/// The decimal digits of `n`.
pub open spec fn digits(n: nat) -> Seq<char>
    decreases n,
{
    if n < 10 {
        seq![digit(n)]
    } else {
        digits(n / 10).push(digit(n % 10))
    }
}

/// The number that a text of decimal digits stands for.
pub open spec fn number(s: Seq<char>) -> int
    decreases s.len(),
{
    if s.len() == 0 {
        0
    } else {
        10 * number(s.drop_last()) + (s.last() as u32 - '0' as u32)
    }
}

/// The digits of a number stand for that number, and none of them is idle: there
/// is no zero in front but for the number zero.
pub proof fn digits_stand_for_their_number(n: nat)
    ensures
        number(digits(n)) == n,
        digits(n).len() > 0,
        forall|i: int| 0 <= i < digits(n).len() ==> '0' <= #[trigger] digits(n)[i] <= '9',
        n > 0 ==> digits(n)[0] != '0',
        n == 0 ==> digits(n).len() == 1,
    decreases n,
{
    if n < 10 {
        assert(digits(n).drop_last() =~= Seq::empty());
        reveal_with_fuel(number, 2);
    } else {
        digits_stand_for_their_number(n / 10);
        assert(digits(n).drop_last() =~= digits(n / 10));
        assert(digits(n)[0] == digits(n / 10)[0]);
    }
}

fn digit_text(n: u128) -> (r: &'static str)
    requires
        n < 10,
    ensures
        r@ == seq![digit(n as nat)],
{
    proof {
        reveal_strlit("0");
        reveal_strlit("1");
        reveal_strlit("2");
        reveal_strlit("3");
        reveal_strlit("4");
        reveal_strlit("5");
        reveal_strlit("6");
        reveal_strlit("7");
        reveal_strlit("8");
        reveal_strlit("9");
    }
    if n == 0 {
        "0"
    } else if n == 1 {
        "1"
    } else if n == 2 {
        "2"
    } else if n == 3 {
        "3"
    } else if n == 4 {
        "4"
    } else if n == 5 {
        "5"
    } else if n == 6 {
        "6"
    } else if n == 7 {
        "7"
    } else if n == 8 {
        "8"
    } else {
        "9"
    }
}

/// `n` in decimal.
pub(crate) fn digits_text(n: u128) -> (r: String)
    ensures
        r@ == digits(n as nat),
    decreases n,
{
    if n < 10 {
        digit_text(n).to_owned()
    } else {
        let mut r = digits_text(n / 10);
        r.append(digit_text(n % 10));
        r
    }
}

// ── Search ───────────────────────────────────────────────────────────────────

pub open spec fn occurs_at(hay: Seq<char>, needle: Seq<char>, i: int) -> bool {
    &&& 0 <= i
    &&& i + needle.len() <= hay.len()
    &&& hay.subrange(i, i + needle.len()) == needle
}

/// `needle` occurs at `i` and nowhere before.
pub open spec fn occurs_first_at(hay: Seq<char>, needle: Seq<char>, i: int) -> bool {
    &&& occurs_at(hay, needle, i)
    &&& forall|j: int| 0 <= j < i ==> !occurs_at(hay, needle, j)
}

/// The position just behind the first occurrence of `needle`, or 0 where it
/// does not occur.
pub open spec fn end_of_first(hay: Seq<char>, needle: Seq<char>) -> int {
    if exists|i: int| occurs_first_at(hay, needle, i) {
        (choose|i: int| occurs_first_at(hay, needle, i)) + needle.len()
    } else {
        0
    }
}

/// Where the needle does not occur at all, the search ends at 0.
pub proof fn no_occurrence_ends_at_zero(hay: Seq<char>, needle: Seq<char>)
    requires
        forall|i: int| !occurs_at(hay, needle, i),
    ensures
        end_of_first(hay, needle) == 0,
{
}

/// There is only one first occurrence.
pub proof fn first_occurrence_ends_there(hay: Seq<char>, needle: Seq<char>, i: int)
    requires
        occurs_first_at(hay, needle, i),
    ensures
        end_of_first(hay, needle) == i + needle.len(),
{
    let k = choose|k: int| occurs_first_at(hay, needle, k);
    assert(occurs_first_at(hay, needle, k));
    if k < i {
        assert(!occurs_at(hay, needle, k));
    } else if i < k {
        assert(!occurs_at(hay, needle, i));
    }
}

proof fn lemma_some_first(hay: Seq<char>, needle: Seq<char>, i: int)
    requires
        occurs_at(hay, needle, i),
    ensures
        exists|k: int| k <= i && #[trigger] occurs_first_at(hay, needle, k),
    decreases i,
{
    if occurs_first_at(hay, needle, i) {
    } else {
        let j = choose|j: int| 0 <= j < i && #[trigger] occurs_at(hay, needle, j);
        lemma_some_first(hay, needle, j);
    }
}

/// Where `needle` occurs in `head`, whatever follows `head` moves the end of
/// its first occurrence no further: it stays where it is in `head` alone.
pub proof fn end_of_first_ignores_the_rest(head: Seq<char>, needle: Seq<char>, rest: Seq<char>, i: int)
    requires
        occurs_at(head, needle, i),
    ensures
        end_of_first(head + rest, needle) == end_of_first(head, needle),
        needle.len() <= end_of_first(head, needle) <= i + needle.len(),
{
    lemma_some_first(head, needle, i);
    let k = choose|k: int| k <= i && #[trigger] occurs_first_at(head, needle, k);
    let n = needle.len() as int;
    assert forall|j: int| j <= k implies #[trigger] occurs_at(head + rest, needle, j) == occurs_at(
        head,
        needle,
        j,
    ) by {
        if 0 <= j {
            assert((head + rest).subrange(j, j + n) =~= head.subrange(j, j + n));
        }
    }
    assert(occurs_first_at(head + rest, needle, k));
    first_occurrence_ends_there(head, needle, k);
    first_occurrence_ends_there(head + rest, needle, k);
}

/// The characters of `s`.
fn chars_of(s: &str) -> (r: Vec<char>)
    ensures
        r@ == s@,
{
    let mut r: Vec<char> = Vec::new();
    for c in it: s.chars()
        invariant
            r@ == it.seq().take(it.index() as int),
            it.seq() == s@,
    {
        r.push(c);
    }
    assert(s@.take(s@.len() as int) == s@);
    r
}

/// Cut `s` just behind the first occurrence of `needle`; where it does not
/// occur, the first half is empty.
pub(crate) fn split_after_first(s: &str, needle: &str) -> (r: (String, String))
    requires
        needle@.len() > 0,
    ensures
        r.0@ == s@.take(end_of_first(s@, needle@)),
        r.1@ == s@.skip(end_of_first(s@, needle@)),
{
    let hay = chars_of(s);
    let pat = chars_of(needle);
    let n: usize = pat.len();
    let mut end: usize = 0;
    let mut i: usize = 0;
    let mut found: bool = false;
    while !found && i < hay.len() && n <= hay.len() - i
        invariant
            hay@ == s@,
            pat@ == needle@,
            n == pat@.len(),
            n > 0,
            i <= hay@.len(),
            !found ==> end == 0,
            !found ==> forall|j: int| 0 <= j < i ==> !occurs_at(s@, needle@, j),
            found ==> end == i + n && occurs_first_at(s@, needle@, i as int),
        decreases hay@.len() - i + (if found { 0int } else { 1int }),
    {
        let mut k: usize = 0;
        while k < n && hay[i + k] == pat[k]
            invariant
                hay@ == s@,
                pat@ == needle@,
                n == pat@.len(),
                i + n <= hay.len(),
                k <= n,
                forall|m: int| 0 <= m < k ==> hay@[i + m] == #[trigger] pat@[m],
            decreases n - k,
        {
            k += 1;
        }
        if k == n {
            assert(s@.subrange(i as int, i + n) =~= needle@);
            found = true;
            end = i + n;
        } else {
            assert(!occurs_at(s@, needle@, i as int)) by {
                if occurs_at(s@, needle@, i as int) {
                    assert(s@.subrange(i as int, i + n)[k as int] == s@[i + k]);
                }
            }
            i += 1;
        }
    }
    proof {
        if found {
            first_occurrence_ends_there(s@, needle@, i as int);
        } else {
            assert forall|j: int| !occurs_first_at(s@, needle@, j) by {
                if occurs_first_at(s@, needle@, j) {
                    assert(occurs_at(s@, needle@, j));
                }
            }
        }
    }
    let head = s.substring_char(0, end).to_owned();
    let tail = s.substring_char(end, hay.len()).to_owned();
    assert(s@.subrange(0, end as int) =~= s@.take(end as int));
    assert(s@.subrange(end as int, s@.len() as int) =~= s@.skip(end as int));
    (head, tail)
}

} // verus!
