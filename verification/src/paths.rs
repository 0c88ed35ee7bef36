//! Paths as text.
//!
//! A path is a string whose parts are separated by `/`. Its components are
//! what a walk down the path meets: the root, where the path starts at it,
//! then the names between the separators. Empty parts (`a//b`, `a/`) name
//! nothing, and `.` names nothing except at the very start of a path.

use vstd::prelude::*;
use crate::text::{
    chars_of, filter_push, optional_text, pieces, split, split_ranges, string_of, texts,
};

verus! {

/// The part `.`, which stands for the directory that it is met in.
pub open spec fn is_dot(part: Seq<char>) -> bool {
    part.len() == 1 && part[0] == '.'
}

/// The part `..`, which stands for the directory above.
pub open spec fn is_dot_dot(part: Seq<char>) -> bool {
    part.len() == 2 && part[0] == '.' && part[1] == '.'
}

/// A part of a path, other than its first, that names something.
pub open spec fn names_something(part: Seq<char>) -> bool {
    part.len() > 0 && !is_dot(part)
}

/// What the first part of a path contributes: itself where it is not
/// empty, the root `/` where the path starts with a separator, and nothing
/// for the empty path.
pub open spec fn leading_component(p: Seq<char>) -> Seq<Seq<char>> {
    let first = split(p, '/')[0];
    if first.len() > 0 {
        seq![first]
    } else if p.len() > 0 {
        seq![seq!['/']]
    } else {
        seq![]
    }
}

/// The components of the path `p`, in order.
pub open spec fn components_of(p: Seq<char>) -> Seq<Seq<char>> {
    leading_component(p) + split(p, '/').skip(1).filter(|part: Seq<char>| names_something(part))
}

/// Whether a component is a plain name, neither the root nor `.` nor `..`.
pub open spec fn is_plain_name(component: Seq<char>) -> bool {
    &&& component.len() > 0
    &&& component[0] != '/'
    &&& !is_dot(component)
    &&& !is_dot_dot(component)
}

/// The name of the file or directory that `p` leads to: its last component,
/// where that is a plain name.
pub open spec fn file_name_of(p: Seq<char>) -> Option<Seq<char>> {
    let components = components_of(p);
    if components.len() > 0 && is_plain_name(components.last()) {
        Some(components.last())
    } else {
        None
    }
}

/// The position of the last `c` in `s`, or `-1` where there is none.
pub open spec fn last_index(s: Seq<char>, c: char) -> int
    decreases s.len(),
{
    if s.len() == 0 {
        -1
    } else if s.last() == c {
        s.len() - 1
    } else {
        last_index(s.drop_last(), c)
    }
}

/// The extension of a file name: what follows its last `.`, which may be
/// nothing (`a.`). A name without a `.`, or whose only `.` is its first
/// character (`.profile`), has no extension.
pub open spec fn extension_of_name(name: Seq<char>) -> Option<Seq<char>> {
    let dot = last_index(name, '.');
    if dot <= 0 {
        None
    } else {
        Some(name.skip(dot + 1))
    }
}

/// The extension of the file that `p` leads to.
pub open spec fn extension_of(p: Seq<char>) -> Option<Seq<char>> {
    match file_name_of(p) {
        Some(name) => extension_of_name(name),
        None => None,
    }
}

/// Two paths lead the same way: they have the same components.
pub open spec fn same_path(a: Seq<char>, b: Seq<char>) -> bool {
    components_of(a) == components_of(b)
}

/// The components of `path`.
pub fn path_components(path: &str) -> (components: Vec<String>)
    ensures
        texts(components@) == components_of(path@),
{
    let chars = chars_of(path);
    let cuts = split_ranges(&chars, '/');
    let ghost parts = split(path@, '/');
    let ghost keep = |part: Seq<char>| names_something(part);
    let mut components: Vec<String> = Vec::new();
    let (from, to) = cuts[0];
    assert(parts[0] == pieces(chars@, cuts@)[0]);
    if to > from {
        components.push(string_of(&chars, from, to));
        assert(texts(components@) == leading_component(path@));
    } else if chars.len() > 0 {
        components.push("/".to_string());
        proof {
            reveal_strlit("/");
            assert(parts[0].len() == 0);
            assert(components@[0]@ == seq!['/']);
            assert(texts(components@) == seq![seq!['/']]);
        }
    } else {
        assert(texts(components@) == leading_component(path@));
    }
    let mut k: usize = 1;
    assert(parts.skip(1).take(0) == Seq::<Seq<char>>::empty());
    while k < cuts.len()
        invariant
            1 <= k <= cuts.len(),
            chars@ == path@,
            parts == split(path@, '/'),
            parts == pieces(chars@, cuts@),
            crate::text::cuts_within(cuts@, chars@.len()),
            keep == |part: Seq<char>| names_something(part),
            texts(components@) == leading_component(path@) + parts.skip(1).take(k - 1).filter(keep),
        decreases cuts.len() - k,
    {
        let (from, to) = cuts[k];
        let ghost part = parts[k as int];
        proof {
            assert(part == chars@.subrange(from as int, to as int));
            assert(parts.skip(1).take(k as int) == parts.skip(1).take(k - 1).push(part));
            filter_push(parts.skip(1).take(k - 1), part, keep);
        }
        if to > from && !(to - from == 1 && chars[from] == '.') {
            let ghost before = texts(components@);
            components.push(string_of(&chars, from, to));
            assert(texts(components@) == before.push(part));
        }
        k = k + 1;
    }
    assert(parts.skip(1).take(k - 1) == parts.skip(1));
    components
}

fn plain_name(chars: &Vec<char>) -> (plain: bool)
    ensures
        plain == is_plain_name(chars@),
{
    let n = chars.len();
    if n == 0 || chars[0] == '/' {
        return false;
    }
    if n == 1 && chars[0] == '.' {
        return false;
    }
    !(n == 2 && chars[0] == '.' && chars[1] == '.')
}

/// The name of the file or directory that `path` leads to.
pub fn file_name(path: &str) -> (name: Option<String>)
    ensures
        optional_text(name) == file_name_of(path@),
{
    let mut components = path_components(path);
    let ghost all = components@;
    match components.pop() {
        Some(last) => {
            assert(last == all.last());
            assert(texts(all).last() == last@);
            let chars = chars_of(last.as_str());
            if plain_name(&chars) {
                Some(last)
            } else {
                None
            }
        },
        None => None,
    }
}

/// The extension of a file name.
pub fn extension_of_file_name(name: &str) -> (extension: Option<String>)
    ensures
        optional_text(extension) == extension_of_name(name@),
{
    let chars = chars_of(name);
    let mut i: usize = chars.len();
    assert(chars@.take(i as int) == chars@);
    while i > 0 && chars[i - 1] != '.'
        invariant
            i <= chars.len(),
            last_index(chars@, '.') == last_index(chars@.take(i as int), '.'),
        decreases i,
    {
        assert(chars@.take(i as int).drop_last() == chars@.take(i - 1));
        i = i - 1;
    }
    if i <= 1 {
        None
    } else {
        let extension = string_of(&chars, i, chars.len());
        assert(chars@.subrange(i as int, chars@.len() as int) == chars@.skip(i as int));
        Some(extension)
    }
}

/// The extension of the file that `path` leads to.
pub fn extension(path: &str) -> (extension: Option<String>)
    ensures
        optional_text(extension) == extension_of(path@),
{
    match file_name(path) {
        Some(name) => extension_of_file_name(name.as_str()),
        None => None,
    }
}

/// Whether two paths have the same components.
pub fn paths_equal(a: &str, b: &str) -> (same: bool)
    ensures
        same == same_path(a@, b@),
{
    let left = path_components(a);
    let right = path_components(b);
    if left.len() != right.len() {
        assert(texts(left@).len() != texts(right@).len());
        return false;
    }
    let mut i: usize = 0;
    while i < left.len()
        invariant
            i <= left.len(),
            left.len() == right.len(),
            texts(left@) == components_of(a@),
            texts(right@) == components_of(b@),
            forall|k: int| 0 <= k < i ==> texts(left@)[k] == texts(right@)[k],
        decreases left.len() - i,
    {
        if left[i] != right[i] {
            assert(texts(left@)[i as int] != texts(right@)[i as int]);
            return false;
        }
        i = i + 1;
    }
    assert(texts(left@) =~= texts(right@));
    true
}

} // verus!
