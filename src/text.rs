use vstd::prelude::*;
use vstd::string::StrSliceExecFns;

verus! {

/// The code of a character after ASCII lowercasing: `A`..`Z` map to
/// `a`..`z`, every other character is kept.
pub open spec fn fold(c: char) -> u32 {
    if 'A' <= c && c <= 'Z' {
        (c as u32 + 32) as u32
    } else {
        c as u32
    }
}

/// The codes of a text after ASCII lowercasing.
pub open spec fn folded(s: Seq<char>) -> Seq<u32> {
    s.map_values(|c: char| fold(c))
}

/// `n` occurs in `h` starting at position `i`.
pub open spec fn occurs_at<A>(h: Seq<A>, n: Seq<A>, i: int) -> bool {
    0 <= i && i + n.len() <= h.len() && h.subrange(i, i + n.len()) == n
}

/// `n` occurs somewhere in `h`.
pub open spec fn occurs<A>(h: Seq<A>, n: Seq<A>) -> bool {
    exists|i: int| #[trigger] occurs_at(h, n, i)
}

pub open spec fn starts_with<A>(h: Seq<A>, n: Seq<A>) -> bool {
    occurs_at(h, n, 0)
}

pub open spec fn ends_with<A>(h: Seq<A>, n: Seq<A>) -> bool {
    occurs_at(h, n, h.len() - n.len())
}

/// `s` without its trailing `/` characters.
pub open spec fn trim_slashes(s: Seq<char>) -> Seq<char>
    decreases s.len(),
{
    if s.len() > 0 && s.last() == '/' {
        trim_slashes(s.drop_last())
    } else {
        s
    }
}

/// Unicode `White_Space`, the property that `char::is_whitespace` tests.
pub open spec fn is_white_space(c: char) -> bool {
    let u = c as u32;
    (0x9 <= u && u <= 0xD) || u == 0x20 || u == 0x85 || u == 0xA0 || u == 0x1680 || (0x2000 <= u
        && u <= 0x200A) || u == 0x2028 || u == 0x2029 || u == 0x202F || u == 0x205F || u == 0x3000
}

/// The text is empty once white space is trimmed.
pub open spec fn is_blank(s: Seq<char>) -> bool {
    forall|i: int| 0 <= i < s.len() ==> is_white_space(#[trigger] s[i])
}

pub fn fold_char(c: char) -> (r: u32)
    ensures
        r == fold(c),
{
    if 'A' <= c && c <= 'Z' {
        c as u32 + 32
    } else {
        c as u32
    }
}

fn white_space_char(c: char) -> (r: bool)
    ensures
        r == is_white_space(c),
{
    let u = c as u32;
    (0x9 <= u && u <= 0xD) || u == 0x20 || u == 0x85 || u == 0xA0 || u == 0x1680 || (0x2000 <= u
        && u <= 0x200A) || u == 0x2028 || u == 0x2029 || u == 0x202F || u == 0x205F || u == 0x3000
}

/// Whether `n` occurs in `h` at character position `i`, comparing
/// characters exactly (`fold_case == false`) or after ASCII lowercasing.
fn occurs_at_exec(h: &str, n: &str, i: usize, fold_case: bool) -> (r: bool)
    ensures
        !fold_case ==> r == occurs_at(h@, n@, i as int),
        fold_case ==> r == occurs_at(folded(h@), folded(n@), i as int),
{
    let hl = h.unicode_len();
    let nl = n.unicode_len();
    if i > hl || nl > hl - i {
        return false;
    }
    let mut j: usize = 0;
    while j < nl
        invariant
            hl == h@.len(),
            nl == n@.len(),
            i + nl <= hl,
            j <= nl,
            !fold_case ==> forall|k: int| 0 <= k < j ==> h@[i + k] == n@[k],
            fold_case ==> forall|k: int| 0 <= k < j ==> fold(h@[i + k]) == fold(n@[k]),
        decreases nl - j,
    {
        let a = h.get_char(i + j);
        let b = n.get_char(j);
        let same = if fold_case {
            fold_char(a) == fold_char(b)
        } else {
            a == b
        };
        if !same {
            proof {
                if fold_case {
                    assert(folded(h@).subrange(i as int, i + nl)[j as int] != folded(n@)[j as int]);
                } else {
                    assert(h@.subrange(i as int, i + nl)[j as int] != n@[j as int]);
                }
            }
            return false;
        }
        j = j + 1;
    }
    proof {
        if fold_case {
            assert(folded(h@).subrange(i as int, i + nl) =~= folded(n@));
        } else {
            assert(h@.subrange(i as int, i + nl) =~= n@);
        }
    }
    true
}

/// Whether the text, ASCII-lowercased, contains `n` ASCII-lowercased.
pub fn contains_folded(h: &str, n: &str) -> (r: bool)
    ensures
        r == occurs(folded(h@), folded(n@)),
{
    let hl = h.unicode_len();
    let nl = n.unicode_len();
    if nl > hl {
        proof {
            assert forall|i: int| !(#[trigger] occurs_at(folded(h@), folded(n@), i)) by {}
        }
        return false;
    }
    let last = hl - nl;
    let mut i: usize = 0;
    loop
        invariant
            hl == h@.len(),
            nl == n@.len(),
            last == hl - nl,
            i <= last,
            forall|k: int| 0 <= k < i ==> !#[trigger] occurs_at(folded(h@), folded(n@), k),
        decreases last - i,
    {
        if occurs_at_exec(h, n, i, true) {
            return true;
        }
        if i == last {
            proof {
                assert forall|k: int| !(#[trigger] occurs_at(folded(h@), folded(n@), k)) by {
                    if 0 <= k < i {
                    }
                }
            }
            return false;
        }
        i = i + 1;
    }
}

/// Whether the text, ASCII-lowercased, starts with `n` ASCII-lowercased.
pub fn starts_with_folded(h: &str, n: &str) -> (r: bool)
    ensures
        r == starts_with(folded(h@), folded(n@)),
{
    occurs_at_exec(h, n, 0, true)
}

/// Whether `h` ends with `n`, character for character.
pub fn ends_with_exact(h: &str, n: &str) -> (r: bool)
    ensures
        r == ends_with(h@, n@),
{
    let hl = h.unicode_len();
    let nl = n.unicode_len();
    if nl > hl {
        return false;
    }
    occurs_at_exec(h, n, hl - nl, false)
}

/// Whether the two texts are equal, character for character.
pub fn same_text(a: &str, b: &str) -> (r: bool)
    ensures
        r == (a@ == b@),
{
    let al = a.unicode_len();
    let bl = b.unicode_len();
    if al != bl {
        return false;
    }
    let r = occurs_at_exec(a, b, 0, false);
    proof {
        if r {
            assert(a@ =~= a@.subrange(0, bl as int));
        } else {
            assert(a@ == b@ ==> a@.subrange(0, bl as int) =~= b@);
        }
    }
    r
}

/// Whether the text holds nothing but white space.
pub fn blank(s: &str) -> (r: bool)
    ensures
        r == is_blank(s@),
{
    let n = s.unicode_len();
    let mut i: usize = 0;
    while i < n
        invariant
            n == s@.len(),
            i <= n,
            forall|k: int| 0 <= k < i ==> is_white_space(#[trigger] s@[k]),
        decreases n - i,
    {
        if !white_space_char(s.get_char(i)) {
            return false;
        }
        i = i + 1;
    }
    true
}

/// The text without its trailing `/` characters.
pub fn trim_trailing_slashes(s: &str) -> (r: &str)
    ensures
        r@ == trim_slashes(s@),
{
    let n = s.unicode_len();
    let mut k: usize = n;
    proof {
        assert(s@.subrange(0, n as int) =~= s@);
    }
    while k > 0 && s.get_char(k - 1) == '/'
        invariant
            n == s@.len(),
            k <= n,
            trim_slashes(s@.subrange(0, k as int)) == trim_slashes(s@),
        decreases k,
    {
        proof {
            assert(s@.subrange(0, k as int).drop_last() =~= s@.subrange(0, k - 1));
        }
        k = k - 1;
    }
    s.substring_char(0, k)
}

/// Some needle of the list occurs in the text, both ASCII-lowercased.
pub open spec fn occurs_any(h: Seq<char>, needles: Seq<&str>) -> bool {
    exists|k: int| 0 <= k < needles.len() && #[trigger] occurs(folded(h), folded(needles[k]@))
}

/// Whether some needle of the list occurs in the text, both ASCII-lowercased.
pub fn contains_any_folded(h: &str, needles: &Vec<&str>) -> (r: bool)
    ensures
        r == occurs_any(h@, needles@),
{
    let mut k: usize = 0;
    while k < needles.len()
        invariant
            k <= needles@.len(),
            forall|j: int| 0 <= j < k ==> !#[trigger] occurs(folded(h@), folded(needles@[j]@)),
        decreases needles@.len() - k,
    {
        if contains_folded(h, needles[k]) {
            return true;
        }
        k = k + 1;
    }
    false
}

} // verus!
