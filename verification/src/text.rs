//! Character-level scanning: white space, runs of one class of characters,
//! trimming and line boundaries. Everything is stated over `Seq<char>`.

use vstd::prelude::*;

verus! {

/// Whether `c` has the Unicode property White_Space.
pub open spec fn is_space(c: char) -> bool {
    let u = c as u32;
    ||| 0x09 <= u <= 0x0D
    ||| u == 0x20
    ||| u == 0x85
    ||| u == 0xA0
    ||| u == 0x1680
    ||| 0x2000 <= u <= 0x200A
    ||| u == 0x2028
    ||| u == 0x2029
    ||| u == 0x202F
    ||| u == 0x205F
    ||| u == 0x3000
}

/// Executable test for [`is_space`].
pub fn is_whitespace(c: char) -> (b: bool)
    ensures
        b == is_space(c),
{
    let u: u32 = c as u32;
    (0x09 <= u && u <= 0x0D) || u == 0x20 || u == 0x85 || u == 0xA0 || u == 0x1680 || (0x2000 <= u
        && u <= 0x200A) || u == 0x2028 || u == 0x2029 || u == 0x202F || u == 0x205F || u == 0x3000
}

/// The classes of characters that the scanners tell apart.
#[derive(Clone, Copy, Debug, PartialEq, Eq, Structural)]
pub enum CharClass {
    /// White space.
    Space,
    /// Anything but white space: the characters of a token.
    Word,
    /// Anything but a line feed: the characters of a line.
    InLine,
}

impl CharClass {
    /// Whether `c` belongs to the class.
    pub open spec fn has(self, c: char) -> bool {
        match self {
            CharClass::Space => is_space(c),
            CharClass::Word => !is_space(c),
            CharClass::InLine => c != '\n',
        }
    }

    /// Executable test for [`CharClass::has`].
    pub fn contains(self, c: char) -> (b: bool)
        ensures
            b == self.has(c),
    {
        match self {
            CharClass::Space => is_whitespace(c),
            CharClass::Word => !is_whitespace(c),
            CharClass::InLine => c != '\n',
        }
    }
}

/// Length of the longest prefix of `s` whose characters all belong to `class`.
pub open spec fn run_len(s: Seq<char>, class: CharClass) -> nat
    decreases s.len(),
{
    if s.len() > 0 && class.has(s[0]) {
        1 + run_len(s.drop_first(), class)
    } else {
        0
    }
}

/// Length of the longest suffix of `s` whose characters all belong to `class`.
pub open spec fn tail_run_len(s: Seq<char>, class: CharClass) -> nat
    decreases s.len(),
{
    if s.len() > 0 && class.has(s.last()) {
        1 + tail_run_len(s.drop_last(), class)
    } else {
        0
    }
}

/// `s` without its leading white space.
pub open spec fn trim_start(s: Seq<char>) -> Seq<char> {
    s.skip(run_len(s, CharClass::Space) as int)
}

/// `s` without its trailing white space.
pub open spec fn trim_end(s: Seq<char>) -> Seq<char> {
    s.take(s.len() - tail_run_len(s, CharClass::Space))
}

/// `s` without leading and trailing white space.
pub open spec fn trim(s: Seq<char>) -> Seq<char> {
    trim_end(trim_start(s))
}

/// The first line of `s`: everything before its first line feed.
pub open spec fn first_line(s: Seq<char>) -> Seq<char> {
    s.take(run_len(s, CharClass::InLine) as int)
}

/// What follows the first line of `s` and the line feed that ends it.
pub open spec fn after_first_line(s: Seq<char>) -> Seq<char> {
    if run_len(s, CharClass::InLine) < s.len() {
        s.skip(run_len(s, CharClass::InLine) as int + 1)
    } else {
        Seq::empty()
    }
}

/// A prefix run is the unique `k` such that the first `k` characters belong
/// to the class and the next one, if any, does not.
pub proof fn lemma_run_len_is(s: Seq<char>, class: CharClass, k: int)
    requires
        0 <= k <= s.len(),
        forall|i: int| 0 <= i < k ==> class.has(#[trigger] s[i]),
        k < s.len() ==> !class.has(s[k]),
    ensures
        run_len(s, class) == k,
    decreases k,
{
    if k > 0 {
        let t = s.drop_first();
        assert forall|i: int| 0 <= i < k - 1 implies class.has(#[trigger] t[i]) by {
            assert(t[i] == s[i + 1]);
        }
        assert(k - 1 < t.len() ==> t[k - 1] == s[k]);
        lemma_run_len_is(t, class, k - 1);
    }
}

/// A prefix run never exceeds the sequence, covers only characters of the
/// class, and stops at the first character outside it.
pub proof fn lemma_run_len_holds(s: Seq<char>, class: CharClass)
    ensures
        run_len(s, class) <= s.len(),
        forall|i: int| 0 <= i < run_len(s, class) ==> class.has(#[trigger] s[i]),
        run_len(s, class) < s.len() ==> !class.has(s[run_len(s, class) as int]),
    decreases s.len(),
{
    if s.len() > 0 && class.has(s[0]) {
        let t = s.drop_first();
        lemma_run_len_holds(t, class);
        assert forall|i: int| 0 <= i < run_len(s, class) implies class.has(#[trigger] s[i]) by {
            if i > 0 {
                assert(s[i] == t[i - 1]);
            }
        }
        let k = run_len(t, class) as int;
        assert(k < t.len() ==> t[k] == s[k + 1]);
    }
}

/// A suffix run is the unique `k` such that the last `k` characters belong
/// to the class and the one before them, if any, does not.
pub proof fn lemma_tail_run_len_is(s: Seq<char>, class: CharClass, k: int)
    requires
        0 <= k <= s.len(),
        forall|i: int| s.len() - k <= i < s.len() ==> class.has(#[trigger] s[i]),
        k < s.len() ==> !class.has(s[s.len() - k - 1]),
    ensures
        tail_run_len(s, class) == k,
    decreases k,
{
    if k > 0 {
        let t = s.drop_last();
        assert forall|i: int| t.len() - (k - 1) <= i < t.len() implies class.has(
            #[trigger] t[i],
        ) by {
            assert(t[i] == s[i]);
        }
        assert(k - 1 < t.len() ==> t[t.len() - (k - 1) - 1] == s[s.len() - k - 1]);
        lemma_tail_run_len_is(t, class, k - 1);
    }
}

/// A suffix run never exceeds the sequence, covers only characters of the
/// class, and stops at the last character outside it.
pub proof fn lemma_tail_run_len_holds(s: Seq<char>, class: CharClass)
    ensures
        tail_run_len(s, class) <= s.len(),
        forall|i: int|
            s.len() - tail_run_len(s, class) <= i < s.len() ==> class.has(#[trigger] s[i]),
        tail_run_len(s, class) < s.len() ==> !class.has(
            s[s.len() - tail_run_len(s, class) - 1],
        ),
    decreases s.len(),
{
    if s.len() > 0 && class.has(s.last()) {
        let t = s.drop_last();
        lemma_tail_run_len_holds(t, class);
        assert forall|i: int|
            s.len() - tail_run_len(s, class) <= i < s.len() implies class.has(#[trigger] s[i]) by {
            if i < s.len() - 1 {
                assert(s[i] == t[i]);
            }
        }
        let k = tail_run_len(t, class) as int;
        assert(k < t.len() ==> t[t.len() - k - 1] == s[s.len() - (k + 1) - 1]);
    }
}

/// The characters of `s`, one by one.
pub fn chars_of(s: &str) -> (chars: Vec<char>)
    ensures
        chars@ == s@,
{
    broadcast use vstd::string::group_string_axioms;

    let mut chars: Vec<char> = Vec::new();
    for c in it: s.chars()
        invariant
            it.seq() == s@,
            chars@ == s@.take(it.index()),
    {
        chars.push(c);
        assert(chars@ =~= s@.take(it.index() + 1));
    }
    assert(chars@ =~= s@);
    chars
}

/// Whether the window `from..to` opens with the characters of `prefix`.
pub fn has_prefix(chars: &Vec<char>, from: usize, to: usize, prefix: &Vec<char>) -> (b: bool)
    requires
        from <= to <= chars@.len(),
    ensures
        b == prefix@.is_prefix_of(chars@.subrange(from as int, to as int)),
{
    let ghost window = chars@.subrange(from as int, to as int);
    if prefix.len() > to - from {
        return false;
    }
    let mut i: usize = 0;
    while i < prefix.len()
        invariant
            i <= prefix@.len() <= to - from,
            from <= to <= chars@.len(),
            window == chars@.subrange(from as int, to as int),
            forall|j: int| 0 <= j < i ==> prefix@[j] == #[trigger] window[j],
        decreases prefix@.len() - i,
    {
        if prefix[i] != chars[from + i] {
            assert(window[i as int] == chars@[from + i]);
            assert(window.subrange(0, prefix@.len() as int)[i as int] != prefix@[i as int]);
            return false;
        }
        assert(window[i as int] == chars@[from + i]);
        i += 1;
    }
    assert(prefix@ =~= window.subrange(0, prefix@.len() as int));
    true
}

/// Scans forward from `from` and stops at `to` or at the first character
/// outside `class`, whichever comes first.
pub fn scan(chars: &Vec<char>, from: usize, to: usize, class: CharClass) -> (stop: usize)
    requires
        from <= to <= chars@.len(),
    ensures
        from <= stop <= to,
        stop - from == run_len(chars@.subrange(from as int, to as int), class),
{
    let mut k: usize = from;
    while k < to && class.contains(chars[k])
        invariant
            from <= k <= to <= chars@.len(),
            forall|i: int| from <= i < k ==> class.has(#[trigger] chars@[i]),
        decreases to - k,
    {
        k += 1;
    }
    proof {
        let window = chars@.subrange(from as int, to as int);
        assert forall|i: int| 0 <= i < k - from implies class.has(#[trigger] window[i]) by {
            assert(window[i] == chars@[from + i]);
        }
        lemma_run_len_is(window, class, k - from);
    }
    k
}

/// Scans backward from `to` and stops at `from` or just after the last
/// character outside `class`, whichever comes first.
pub fn scan_back(chars: &Vec<char>, from: usize, to: usize, class: CharClass) -> (stop: usize)
    requires
        from <= to <= chars@.len(),
    ensures
        from <= stop <= to,
        to - stop == tail_run_len(chars@.subrange(from as int, to as int), class),
{
    let mut k: usize = to;
    while k > from && class.contains(chars[k - 1])
        invariant
            from <= k <= to <= chars@.len(),
            forall|i: int| k <= i < to ==> class.has(#[trigger] chars@[i]),
        decreases k - from,
    {
        k -= 1;
    }
    proof {
        let window = chars@.subrange(from as int, to as int);
        assert forall|i: int| window.len() - (to - k) <= i < window.len() implies class.has(
            #[trigger] window[i],
        ) by {
            assert(window[i] == chars@[from + i]);
        }
        lemma_tail_run_len_is(window, class, to - k);
    }
    k
}

/// The bounds of the window `from..to` once white space is trimmed off both
/// of its ends.
pub fn trim_bounds(chars: &Vec<char>, from: usize, to: usize) -> (bounds: (usize, usize))
    requires
        from <= to <= chars@.len(),
    ensures
        from <= bounds.0 <= bounds.1 <= to,
        chars@.subrange(bounds.0 as int, bounds.1 as int) == trim(
            chars@.subrange(from as int, to as int),
        ),
{
    let start = scan(chars, from, to, CharClass::Space);
    let end = scan_back(chars, start, to, CharClass::Space);
    proof {
        let window = chars@.subrange(from as int, to as int);
        assert(trim_start(window) =~= chars@.subrange(start as int, to as int));
        assert(trim(window) =~= chars@.subrange(start as int, end as int));
    }
    (start, end)
}

} // verus!
