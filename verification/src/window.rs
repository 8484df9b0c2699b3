//! Reading the focused window from the X11 property tool: the window id in
//! the root window's `_NET_ACTIVE_WINDOW` property, and the class in the
//! window's `WM_CLASS` property.
use vstd::prelude::*;
use vstd::string::StrSliceExecFns;
use crate::text::{chars_of, is_white_space, spec_to_lowercase, spec_trim, to_lowercase, trim, white_space};

verus! {

/// `s[i..j]` is a whitespace-separated word of `s`: not empty, free of white
/// space, and bounded by white space or the ends of `s` (what
/// `split_whitespace` yields).
pub open spec fn token_at(s: Seq<char>, i: int, j: int) -> bool {
    &&& 0 <= i < j <= s.len()
    &&& (i == 0 || is_white_space(s[i - 1]))
    &&& (j == s.len() || is_white_space(s[j]))
    &&& forall|k: int| i <= k < j ==> !is_white_space(#[trigger] s[k])
}

/// `s[i..j]` is a word that starts with `0x`.
pub open spec fn hex_token_at(s: Seq<char>, i: int, j: int) -> bool {
    token_at(s, i, j) && seq!['0', 'x'].is_prefix_of(s.subrange(i, j))
}

/// `s[i..j]` is the last word of `s` that starts with `0x`.
pub open spec fn last_hex_token_at(s: Seq<char>, i: int, j: int) -> bool {
    hex_token_at(s, i, j) && forall|i2: int, j2: int| #[trigger] hex_token_at(s, i2, j2) ==> i2 <= i
}

/// A word is determined by where it starts.
proof fn lemma_token_unique(s: Seq<char>, i: int, j: int, j2: int)
    requires
        token_at(s, i, j),
        token_at(s, i, j2),
    ensures
        j == j2,
{
    if j < j2 {
        assert(!is_white_space(s[j]));
    } else if j2 < j {
        assert(!is_white_space(s[j2]));
    }
}

/// The id of the focused window in the output of
/// `xprop -root _NET_ACTIVE_WINDOW`: the last word that starts with `0x`;
/// `None` when there is none, or when it is `0x0` (no window has the focus).
pub fn parse_active_window_id(stdout: &str) -> (r: Option<String>)
    ensures
        match r {
            Some(t) => exists|i: int, j: int|
                last_hex_token_at(stdout@, i, j) && t@ == stdout@.subrange(i, j) && t@ != seq![
                    '0',
                    'x',
                    '0',
                ],
            None => forall|i: int, j: int|
                last_hex_token_at(stdout@, i, j) ==> stdout@.subrange(i, j) == seq!['0', 'x', '0'],
        },
{
    let v = chars_of(stdout);
    let n = v.len();
    let ghost s = v@;
    let mut j: usize = n;
    loop
        invariant
            s == v@,
            s == stdout@,
            n == s.len(),
            j <= n,
            j == n || j == 0 || is_white_space(s[j as int]) || is_white_space(s[j - 1]),
            forall|i2: int, j2: int| #[trigger] hex_token_at(s, i2, j2) ==> i2 < j,
        decreases j,
    {
        let ghost j_top = j;
        while j > 0 && white_space(v[j - 1])
            invariant
                j <= j_top,
                s == v@,
                n == s.len(),
                j <= n,
                j == n || j == 0 || is_white_space(s[j as int]) || is_white_space(s[j - 1]),
                forall|i2: int, j2: int| #[trigger] hex_token_at(s, i2, j2) ==> i2 < j,
            decreases j,
        {
            assert forall|i2: int, j2: int| #[trigger] hex_token_at(s, i2, j2) implies i2 < j - 1 by {
                if i2 == j - 1 {
                    assert(!is_white_space(s[i2]));
                }
            }
            j = j - 1;
        }
        if j == 0 {
            return None;
        }
        let end = j;
        let mut i = j;
        while i > 0 && !white_space(v[i - 1])
            invariant
                s == v@,
                n == s.len(),
                0 < end <= n,
                i <= end,
                !is_white_space(s[end - 1]),
                forall|k: int| i <= k < end ==> !is_white_space(#[trigger] s[k]),
            decreases i,
        {
            i = i - 1;
        }
        assert(i < end);
        assert(token_at(s, i as int, end as int));
        if end - i >= 2 && v[i] == '0' && v[i + 1] == 'x' {
            assert(seq!['0', 'x'] =~= s.subrange(i as int, end as int).subrange(0, 2));
            assert(hex_token_at(s, i as int, end as int));
            assert forall|i2: int, j2: int| #[trigger] hex_token_at(s, i2, j2) implies i2 <= i by {
                if i < i2 < end {
                    assert(!is_white_space(s[i2 - 1]));
                }
            }
            assert forall|i2: int, j2: int| last_hex_token_at(s, i2, j2) implies i2 == i && j2
                == end by {
                assert(i as int <= i2);
                lemma_token_unique(s, i as int, end as int, j2);
            }
            let is_zero = end - i == 3 && v[i + 2] == '0';
            if is_zero {
                assert(s.subrange(i as int, end as int) =~= seq!['0', 'x', '0']);
                return None;
            }
            let t = stdout.substring_char(i, end).to_owned();
            assert(last_hex_token_at(s, i as int, end as int));
            assert(t@ != seq!['0', 'x', '0']) by {
                if end - i == 3 {
                    assert(t@[2] == s[i + 2]);
                }
            }
            return Some(t);
        }
        assert forall|i2: int, j2: int| #[trigger] hex_token_at(s, i2, j2) implies i2 < i by {
            if i2 == i {
                lemma_token_unique(s, i as int, end as int, j2);
                assert(s.subrange(i as int, end as int)[0] == s[i as int]);
                if end - i >= 2 {
                    assert(s.subrange(i as int, end as int)[1] == s[i + 1]);
                }
            } else if i < i2 < end {
                assert(!is_white_space(s[i2 - 1]));
            }
        }
        j = i;
    }
}

/// The position of the first `c` in `s`, or the length of `s` when there is
/// none.
pub open spec fn index_of(s: Seq<char>, c: char) -> int
    decreases s.len(),
{
    if s.len() == 0 {
        0
    } else if s[0] == c {
        0
    } else {
        1 + index_of(s.drop_first(), c)
    }
}

proof fn lemma_index_of(s: Seq<char>, c: char, k: int)
    requires
        0 <= k <= s.len(),
        forall|j: int| 0 <= j < k ==> s[j] != c,
        k == s.len() || s[k] == c,
    ensures
        index_of(s, c) == k,
    decreases k,
{
    if k > 0 {
        let t = s.drop_first();
        assert forall|j: int| 0 <= j < k - 1 implies t[j] != c by {
            assert(t[j] == s[j + 1]);
        }
        if k < s.len() {
            assert(t[k - 1] == s[k]);
        }
        lemma_index_of(t, c, k - 1);
    }
}

/// The second piece of `s` split at `c` (what `split(c).nth(1)` gives): the
/// text between the first `c` and the next one, or the end.
pub open spec fn second_field(s: Seq<char>, c: char) -> Option<Seq<char>> {
    let a = index_of(s, c);
    if a >= s.len() {
        None
    } else {
        let rest = s.subrange(a + 1, s.len() as int);
        Some(rest.subrange(0, index_of(rest, c)))
    }
}

/// The window class in the output of `xprop -id <window> WM_CLASS`: the text
/// after the first `=`, up to a next `=`, trimmed and lowercased; `None` when
/// there is no `=` or nothing is left.
pub open spec fn spec_wm_class(stdout: Seq<char>) -> Option<Seq<char>> {
    match second_field(stdout, '=') {
        None => None,
        Some(p) => {
            let t = spec_trim(p);
            if t.len() == 0 {
                None
            } else {
                Some(spec_to_lowercase(t))
            }
        },
    }
}

/// The first position at or after `from` that holds `c`, or the length.
fn find_char(v: &Vec<char>, from: usize, c: char) -> (r: usize)
    requires
        from <= v@.len(),
    ensures
        from <= r <= v@.len(),
        index_of(v@.subrange(from as int, v@.len() as int), c) == r - from,
{
    let n = v.len();
    let mut k = from;
    while k < n && v[k] != c
        invariant
            n == v@.len(),
            from <= k <= n,
            forall|j: int| from <= j < k ==> v@[j] != c,
        decreases n - k,
    {
        k = k + 1;
    }
    let ghost sub = v@.subrange(from as int, n as int);
    assert forall|j: int| 0 <= j < k - from implies sub[j] != c by {
        assert(sub[j] == v@[from + j]);
    }
    if k < n {
        assert(sub[k - from] == v@[k as int]);
    }
    proof {
        lemma_index_of(sub, c, k - from);
    }
    k
}

/// The focused window's class in the output of
/// `xprop -id <window> WM_CLASS`, lowercased.
pub fn parse_wm_class(stdout: &str) -> (r: Option<String>)
    ensures
        match (r, spec_wm_class(stdout@)) {
            (Some(t), Some(u)) => t@ == u,
            (None, None) => true,
            _ => false,
        },
        r matches Some(t) ==> t@.len() > 0,
{
    let v = chars_of(stdout);
    let n = v.len();
    assert(v@.subrange(0, n as int) =~= v@);
    let a = find_char(&v, 0, '=');
    if a >= n {
        return None;
    }
    let b = find_char(&v, a + 1, '=');
    let piece = stdout.substring_char(a + 1, b);
    assert(piece@ =~= v@.subrange(a + 1, n as int).subrange(0, b - (a + 1)));
    let value = trim(piece);
    if value.as_str().is_empty() {
        None
    } else {
        Some(to_lowercase(value.as_str()))
    }
}

} // verus!
