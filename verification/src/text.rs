//! Text tools shared by the configuration resolver and the path filters.
//!
//! A string is modelled as the sequence of its characters (`Seq<char>`, the
//! view of `str` and `String`). The executable code scans a `Vec<char>` copy
//! of the text by index, so that every position is reached in constant time.

use vstd::prelude::*;

verus! {

// ---------------------------------------------------------------------------
// Characters in and out of strings
// ---------------------------------------------------------------------------

/// Trusted: `String::push` of std appends the one character given to the end
/// of the string and changes nothing else.
pub assume_specification[ String::push ](s: &mut String, c: char)
    ensures
        final(s)@ == old(s)@.push(c),
;

/// The characters of `s`, in order.
pub fn chars_of(s: &str) -> (chars: Vec<char>)
    ensures
        chars@ == s@,
{
    let mut chars: Vec<char> = Vec::new();
    for c in it: s.chars()
        invariant
            chars@ == it.seq().take(it.index() as int),
    {
        chars.push(c);
    }
    chars
}

/// The string made of `chars[from..to]`.
pub fn string_of(chars: &Vec<char>, from: usize, to: usize) -> (s: String)
    requires
        from <= to <= chars.len(),
    ensures
        s@ == chars@.subrange(from as int, to as int),
{
    let mut s = String::new();
    let mut i: usize = from;
    while i < to
        invariant
            from <= i <= to <= chars.len(),
            s@ == chars@.subrange(from as int, i as int),
        decreases to - i,
    {
        s.push(chars[i]);
        i = i + 1;
    }
    s
}

// ---------------------------------------------------------------------------
// ASCII case folding
// ---------------------------------------------------------------------------

/// `c` with the letters `A` to `Z` mapped to `a` to `z`; every other
/// character, ASCII or not, is left alone.
pub open spec fn ascii_lower(c: char) -> char {
    if 'A' <= c && c <= 'Z' {
        ((c as u8) + 32) as char
    } else {
        c
    }
}

/// Two texts are equal up to the case of their ASCII letters.
pub open spec fn same_ignoring_ascii_case(a: Seq<char>, b: Seq<char>) -> bool {
    &&& a.len() == b.len()
    &&& forall|i: int| 0 <= i < a.len() ==> ascii_lower(#[trigger] a[i]) == ascii_lower(b[i])
}

/// `c` with an ASCII capital letter turned into the small one.
pub fn to_ascii_lower(c: char) -> (r: char)
    ensures
        r == ascii_lower(c),
{
    if 'A' <= c && c <= 'Z' {
        let b: u8 = c as u8;
        (b + 32) as char
    } else {
        c
    }
}

/// Whether two texts are equal up to the case of their ASCII letters.
pub fn eq_ignore_ascii_case(a: &Vec<char>, b: &Vec<char>) -> (same: bool)
    ensures
        same == same_ignoring_ascii_case(a@, b@),
{
    if a.len() != b.len() {
        return false;
    }
    let mut i: usize = 0;
    while i < a.len()
        invariant
            i <= a.len(),
            a.len() == b.len(),
            forall|k: int| 0 <= k < i ==> ascii_lower(#[trigger] a@[k]) == ascii_lower(b@[k]),
        decreases a.len() - i,
    {
        if to_ascii_lower(a[i]) != to_ascii_lower(b[i]) {
            return false;
        }
        i = i + 1;
    }
    true
}

/// Folding is an equivalence: it is reflexive, symmetric and transitive.
pub proof fn ascii_case_equivalence(a: Seq<char>, b: Seq<char>, c: Seq<char>)
    ensures
        same_ignoring_ascii_case(a, a),
        same_ignoring_ascii_case(a, b) ==> same_ignoring_ascii_case(b, a),
        same_ignoring_ascii_case(a, b) && same_ignoring_ascii_case(b, c)
            ==> same_ignoring_ascii_case(a, c),
{
    if same_ignoring_ascii_case(a, b) {
        assert forall|i: int| 0 <= i < b.len() implies ascii_lower(#[trigger] b[i]) == ascii_lower(
            a[i],
        ) by {
            assert(ascii_lower(a[i]) == ascii_lower(b[i]));
        }
        if same_ignoring_ascii_case(b, c) {
            assert forall|i: int| 0 <= i < a.len() implies ascii_lower(#[trigger] a[i])
                == ascii_lower(c[i]) by {
                assert(ascii_lower(b[i]) == ascii_lower(c[i]));
            }
        }
    }
}

// ---------------------------------------------------------------------------
// Whitespace
// ---------------------------------------------------------------------------

/// Whether `c` is whitespace in the sense of `char::is_whitespace`: the
/// characters that carry the Unicode property `White_Space`.
pub uninterp spec fn white_space(c: char) -> bool;

/// Trusted: `char::is_whitespace` of std is a fixed property of the
/// character; `white_space` is the name this library gives it.
pub assume_specification[ char::is_whitespace ](c: char) -> (b: bool)
    ensures
        b == white_space(c),
;

/// `s` without its leading whitespace.
pub open spec fn trim_start(s: Seq<char>) -> Seq<char>
    decreases s.len(),
{
    if s.len() > 0 && white_space(s[0]) {
        trim_start(s.skip(1))
    } else {
        s
    }
}

/// `s` without its trailing whitespace.
pub open spec fn trim_end(s: Seq<char>) -> Seq<char>
    decreases s.len(),
{
    if s.len() > 0 && white_space(s.last()) {
        trim_end(s.drop_last())
    } else {
        s
    }
}

/// `s` without leading and trailing whitespace.
pub open spec fn trimmed(s: Seq<char>) -> Seq<char> {
    trim_end(trim_start(s))
}

/// The bounds of `chars[from..to]` once its trailing whitespace is cut.
pub fn trim_end_range(chars: &Vec<char>, from: usize, to: usize) -> (end: usize)
    requires
        from <= to <= chars.len(),
    ensures
        from <= end <= to,
        chars@.subrange(from as int, end as int) == trim_end(
            chars@.subrange(from as int, to as int),
        ),
{
    let mut end: usize = to;
    while end > from && chars[end - 1].is_whitespace()
        invariant
            from <= end <= to <= chars.len(),
            trim_end(chars@.subrange(from as int, to as int)) == trim_end(
                chars@.subrange(from as int, end as int),
            ),
        decreases end - from,
    {
        assert(chars@.subrange(from as int, end as int).drop_last() == chars@.subrange(
            from as int,
            end - 1,
        ));
        end = end - 1;
    }
    end
}

/// The bounds of `chars[from..to]` once the whitespace at both ends is cut.
pub fn trim_range(chars: &Vec<char>, from: usize, to: usize) -> (r: (usize, usize))
    requires
        from <= to <= chars.len(),
    ensures
        from <= r.0 <= r.1 <= to,
        chars@.subrange(r.0 as int, r.1 as int) == trimmed(chars@.subrange(from as int, to as int)),
{
    let mut start: usize = from;
    while start < to && chars[start].is_whitespace()
        invariant
            from <= start <= to <= chars.len(),
            trim_start(chars@.subrange(from as int, to as int)) == trim_start(
                chars@.subrange(start as int, to as int),
            ),
        decreases to - start,
    {
        assert(chars@.subrange(start as int, to as int).skip(1) == chars@.subrange(
            start + 1,
            to as int,
        ));
        start = start + 1;
    }
    let end = trim_end_range(chars, start, to);
    (start, end)
}

// ---------------------------------------------------------------------------
// Lower case
// ---------------------------------------------------------------------------

/// The lower-case form of a text as `str::to_lowercase` gives it: the
/// Unicode mapping, which looks at more than one character at a time and may
/// change the length of the text.
pub uninterp spec fn unicode_lower(s: Seq<char>) -> Seq<char>;

/// Trusted: calls `str::to_lowercase` of std. The result depends on the
/// text alone; `unicode_lower` names it.
#[verifier::external_body]
pub(crate) fn lowercase(s: &str) -> (lower: String)
    ensures
        lower@ == unicode_lower(s@),
{
    s.to_lowercase()
}

// ---------------------------------------------------------------------------
// Splitting at a separator
// ---------------------------------------------------------------------------

/// The position of the first `c` in `s`, or `s.len()` where there is none.
pub open spec fn first_index(s: Seq<char>, c: char) -> nat
    decreases s.len(),
{
    if s.len() == 0 || s[0] == c {
        0
    } else {
        1 + first_index(s.skip(1), c)
    }
}

/// The pieces of `s` between the occurrences of `sep`, in order. A text
/// with `n` separators has `n + 1` pieces, some of which may be empty.
pub open spec fn split(s: Seq<char>, sep: char) -> Seq<Seq<char>>
    decreases s.len(),
{
    let i = first_index(s, sep);
    if i >= s.len() {
        seq![s]
    } else {
        seq![s.take(i as int)] + split(s.skip(i as int + 1), sep)
    }
}

/// `first_index` is what its name says.
pub proof fn first_index_found(s: Seq<char>, c: char, i: int)
    requires
        0 <= i <= s.len(),
        forall|k: int| 0 <= k < i ==> s[k] != c,
        i < s.len() ==> s[i] == c,
    ensures
        first_index(s, c) == i,
    decreases s.len(),
{
    if i > 0 {
        let rest = s.skip(1);
        assert forall|k: int| 0 <= k < i - 1 implies rest[k] != c by {
            assert(rest[k] == s[k + 1]);
        }
        first_index_found(rest, c, i - 1);
    }
}

/// The texts that a list of index pairs cuts out of `s`.
pub open spec fn pieces(s: Seq<char>, cuts: Seq<(usize, usize)>) -> Seq<Seq<char>> {
    Seq::new(cuts.len(), |k: int| s.subrange(cuts[k].0 as int, cuts[k].1 as int))
}

/// Every pair lies inside a text of length `len`.
pub open spec fn cuts_within(cuts: Seq<(usize, usize)>, len: nat) -> bool {
    forall|k: int| 0 <= k < cuts.len() ==> (#[trigger] cuts[k]).0 <= cuts[k].1 <= len
}

/// Splits `chars` at every `sep` and returns the bounds of the pieces.
pub fn split_ranges(chars: &Vec<char>, sep: char) -> (cuts: Vec<(usize, usize)>)
    ensures
        cuts_within(cuts@, chars@.len()),
        pieces(chars@, cuts@) == split(chars@, sep),
        cuts@.len() >= 1,
{
    let mut cuts: Vec<(usize, usize)> = Vec::new();
    let mut start: usize = 0;
    let mut i: usize = 0;
    assert(chars@.skip(0) == chars@);
    assert(pieces(chars@, cuts@) + split(chars@.skip(0), sep) == split(chars@, sep));
    while i < chars.len()
        invariant
            start <= i <= chars.len(),
            cuts_within(cuts@, chars@.len()),
            forall|k: int| start <= k < i ==> chars@[k] != sep,
            pieces(chars@, cuts@) + split(chars@.skip(start as int), sep) == split(chars@, sep),
        decreases chars.len() - i,
    {
        if chars[i] == sep {
            proof {
                let rest = chars@.skip(start as int);
                first_index_found(rest, sep, i - start);
                assert(rest.take(i - start) == chars@.subrange(start as int, i as int));
                assert(rest.skip(i - start + 1) == chars@.skip(i + 1));
                assert(split(rest, sep) == seq![chars@.subrange(start as int, i as int)] + split(
                    chars@.skip(i + 1),
                    sep,
                ));
                assert(pieces(chars@, cuts@.push((start, i))) == pieces(chars@, cuts@) + seq![
                    chars@.subrange(start as int, i as int),
                ]);
            }
            cuts.push((start, i));
            start = i + 1;
        }
        i = i + 1;
    }
    proof {
        let rest = chars@.skip(start as int);
        first_index_found(rest, sep, rest.len() as int);
        assert(rest == chars@.subrange(start as int, chars@.len() as int));
        assert(pieces(chars@, cuts@.push((start, i))) == pieces(chars@, cuts@) + seq![rest]);
    }
    cuts.push((start, i));
    cuts
}

// ---------------------------------------------------------------------------
// Lists of texts
// ---------------------------------------------------------------------------

/// The texts of a list of owned strings.
pub open spec fn texts(list: Seq<String>) -> Seq<Seq<char>> {
    list.map_values(|s: String| s@)
}

/// The texts of a list of string slices.
pub open spec fn slice_texts(list: Seq<&str>) -> Seq<Seq<char>> {
    list.map_values(|s: &str| s@)
}

/// The texts of a list that may be absent.
pub open spec fn optional_texts(list: Option<Vec<String>>) -> Option<Seq<Seq<char>>> {
    match list {
        Some(v) => Some(texts(v@)),
        None => None,
    }
}

/// The text of a string that may be absent.
pub open spec fn optional_text(s: Option<String>) -> Option<Seq<char>> {
    match s {
        Some(s) => Some(s@),
        None => None,
    }
}

/// Filtering a sequence that grew by one item looks at that item alone.
pub proof fn filter_push<A>(s: Seq<A>, x: A, keep: spec_fn(A) -> bool)
    ensures
        s.push(x).filter(keep) == if keep(x) {
            s.filter(keep).push(x)
        } else {
            s.filter(keep)
        },
{
    reveal(Seq::filter);
    assert(s.push(x).drop_last() == s);
}

/// Filtering a sequence none of whose items is kept leaves nothing.
pub proof fn filter_of_none<A>(s: Seq<A>, keep: spec_fn(A) -> bool)
    requires
        forall|i: int| 0 <= i < s.len() ==> !keep(#[trigger] s[i]),
    ensures
        s.filter(keep).len() == 0,
    decreases s.len(),
{
    reveal(Seq::filter);
    if s.len() > 0 {
        assert forall|i: int| 0 <= i < s.drop_last().len() implies !keep(
            #[trigger] s.drop_last()[i],
        ) by {
            assert(s.drop_last()[i] == s[i]);
        }
        filter_of_none(s.drop_last(), keep);
    }
}

/// What `first_index` finds: no `c` stands before it, and `c` stands at it
/// unless it is the end of the text.
pub proof fn first_index_is_first(s: Seq<char>, c: char)
    ensures
        first_index(s, c) <= s.len(),
        forall|k: int| 0 <= k < first_index(s, c) ==> s[k] != c,
        first_index(s, c) < s.len() ==> s[first_index(s, c) as int] == c,
    decreases s.len(),
{
    if s.len() > 0 && s[0] != c {
        let rest = s.skip(1);
        first_index_is_first(rest, c);
        assert forall|k: int| 0 <= k < first_index(s, c) implies s[k] != c by {
            if k > 0 {
                assert(rest[k - 1] == s[k]);
            }
        }
        if first_index(s, c) < s.len() {
            assert(rest[first_index(rest, c) as int] == s[first_index(s, c) as int]);
        }
    }
}

/// The pieces of a split are made of characters of the text, and none of
/// them holds the separator.
pub proof fn pieces_come_from_text(s: Seq<char>, sep: char)
    ensures
        forall|k: int, j: int|
            0 <= k < split(s, sep).len() && 0 <= j < split(s, sep)[k].len() ==> (#[trigger] split(
                s,
                sep,
            )[k][j]) != sep && s.contains(split(s, sep)[k][j]),
    decreases s.len(),
{
    first_index_is_first(s, sep);
    let i = first_index(s, sep) as int;
    if i < s.len() {
        let rest = s.skip(i + 1);
        pieces_come_from_text(rest, sep);
        assert forall|k: int, j: int|
            0 <= k < split(s, sep).len() && 0 <= j < split(s, sep)[k].len() implies (#[trigger] split(
            s,
            sep,
        )[k][j]) != sep && s.contains(split(s, sep)[k][j]) by {
            if k == 0 {
                assert(split(s, sep)[0] == s.take(i));
                assert(s.take(i)[j] == s[j]);
            } else {
                assert(split(s, sep)[k] == split(rest, sep)[k - 1]);
                let c = split(rest, sep)[k - 1][j];
                assert(rest.contains(c));
                let at = choose|at: int| 0 <= at < rest.len() && rest[at] == c;
                assert(s[at + i + 1] == c);
            }
        }
    }
}

/// A text of nothing but whitespace is trimmed to nothing.
pub proof fn blank_trims_to_nothing(s: Seq<char>)
    requires
        forall|i: int| 0 <= i < s.len() ==> white_space(#[trigger] s[i]),
    ensures
        trimmed(s).len() == 0,
    decreases s.len(),
{
    if s.len() > 0 {
        let rest = s.skip(1);
        assert forall|i: int| 0 <= i < rest.len() implies white_space(#[trigger] rest[i]) by {
            assert(rest[i] == s[i + 1]);
        }
        blank_trims_to_nothing(rest);
    }
}

} // verus!
