//! String primitives: blank tests, case-insensitive comparison, decimal
//! numerals, joining and removal of repeated names.
//!
//! Every function is specified over `Seq<char>`, the view of `str` and
//! `String`.

use vstd::prelude::*;
use vstd::string::*;
use vstd::std_specs::iter::IteratorSpec;

verus! {

/// The views of a sequence of owned strings.
pub open spec fn texts(items: Seq<String>) -> Seq<Seq<char>> {
    items.map_values(|s: String| s@)
}

/// The views of a sequence of borrowed strings.
pub open spec fn slices(items: Seq<&str>) -> Seq<Seq<char>> {
    items.map_values(|s: &str| s@)
}

/// The view of an optional borrowed string.
pub open spec fn opt_slice(item: Option<&str>) -> Option<Seq<char>> {
    match item {
        Some(s) => Some(s@),
        None => None,
    }
}

/// The views of an optional list of borrowed strings.
pub open spec fn opt_slices(items: Option<&[&str]>) -> Option<Seq<Seq<char>>> {
    match items {
        Some(list) => Some(slices(list@)),
        None => None,
    }
}

/// The view of an optional owned string.
pub open spec fn opt_text(item: Option<String>) -> Option<Seq<char>> {
    match item {
        Some(s) => Some(s@),
        None => None,
    }
}

/// Copies borrowed names into owned strings, in order.
pub fn to_strings(items: &[&str]) -> (r: Vec<String>)
    ensures
        texts(r@) == slices(items@),
{
    let mut out: Vec<String> = Vec::new();
    let mut i: usize = 0;
    while i < items.len()
        invariant
            i <= items@.len(),
            out@.len() == i,
            forall|j: int| 0 <= j < i ==> out@[j]@ == items@[j]@,
        decreases items@.len() - i,
    {
        out.push(String::from_str(items[i]));
        i += 1;
    }
    assert(texts(out@) =~= slices(items@));
    out
}

/// Whether `a` and `b` are the same text.
pub fn same_text(a: &str, b: &str) -> (r: bool)
    ensures
        r == (a@ == b@),
{
    let mut other = b.chars();
    for c in it: a.chars()
        invariant
            it.seq() == a@,
            it.index() <= b@.len(),
            other.remaining() == b@.skip(it.index() as int),
            a@.take(it.index() as int) == b@.take(it.index() as int),
    {
        let ghost k = it.index() as int;
        match other.next() {
            Some(d) => {
                if c != d {
                    assert(a@[k] != b@[k]);
                    return false;
                }
                proof {
                    assert(a@.take(k + 1) =~= a@.take(k).push(c));
                    assert(b@.take(k + 1) =~= b@.take(k).push(d));
                    assert(b@.skip(k).drop_first() =~= b@.skip(k + 1));
                }
            },
            None => {
                assert(a@.len() > b@.len());
                return false;
            },
        }
    }
    let rest = other.next();
    proof {
        assert(a@.take(a@.len() as int) =~= a@);
        if rest is None {
            assert(b@.take(a@.len() as int) =~= b@);
        }
    }
    rest.is_none()
}

/// Whether `c` has the Unicode property `White_Space`.
pub open spec fn is_space(c: char) -> bool {
    let n = c as u32;
    (0x09 <= n <= 0x0D) || n == 0x20 || n == 0x85 || n == 0xA0 || n == 0x1680 || (0x2000 <= n
        <= 0x200A) || n == 0x2028 || n == 0x2029 || n == 0x202F || n == 0x205F || n == 0x3000
}

/// Whether `s` holds nothing but white space; the empty string is blank.
pub open spec fn is_blank(s: Seq<char>) -> bool {
    forall|i: int| 0 <= i < s.len() ==> is_space(#[trigger] s[i])
}

/// Whether `c` has the Unicode property `White_Space`.
pub fn space(c: char) -> (r: bool)
    ensures
        r == is_space(c),
{
    let n: u32 = c as u32;
    (0x09 <= n && n <= 0x0D) || n == 0x20 || n == 0x85 || n == 0xA0 || n == 0x1680 || (0x2000 <= n
        && n <= 0x200A) || n == 0x2028 || n == 0x2029 || n == 0x202F || n == 0x205F || n == 0x3000
}

/// A string stays blank exactly when a white-space character is added to a
/// blank string.
proof fn lemma_blank_push(s: Seq<char>, c: char)
    ensures
        is_blank(s.push(c)) == (is_blank(s) && is_space(c)),
{
    if is_blank(s) && is_space(c) {
        assert forall|i: int| 0 <= i < s.push(c).len() implies is_space(#[trigger] s.push(c)[i]) by {
            if i < s.len() {
                assert(s.push(c)[i] == s[i]);
            }
        }
    }
    if is_blank(s.push(c)) {
        assert(s.push(c)[s.len() as int] == c);
        assert forall|i: int| 0 <= i < s.len() implies is_space(#[trigger] s[i]) by {
            assert(s.push(c)[i] == s[i]);
        }
    }
}

/// Whether `s` holds nothing but white space.
pub fn blank(s: &str) -> (r: bool)
    ensures
        r == is_blank(s@),
{
    let mut all: bool = true;
    for c in it: s.chars()
        invariant
            it.seq() == s@,
            all == is_blank(s@.take(it.index() as int)),
    {
        proof {
            let k = it.index() as int;
            assert(s@.take(k + 1) =~= s@.take(k).push(c));
            lemma_blank_push(s@.take(k), c);
        }
        all = all && space(c);
    }
    proof {
        assert(s@.take(s@.len() as int) =~= s@);
    }
    all
}

/// The code point of `c`, with the ASCII capitals mapped to their small
/// letters.
pub open spec fn fold_case(c: char) -> u32 {
    if 'A' <= c && c <= 'Z' {
        (c as u32 + 32) as u32
    } else {
        c as u32
    }
}

/// Whether `a` and `b` are the same text once ASCII letter case is ignored.
pub open spec fn same_ignoring_case(a: Seq<char>, b: Seq<char>) -> bool {
    &&& a.len() == b.len()
    &&& forall|i: int| 0 <= i < a.len() ==> fold_case(#[trigger] a[i]) == fold_case(b[i])
}

/// Ignoring letter case relates every text to itself, and two texts to each
/// other in both directions and across a third.
pub proof fn lemma_same_ignoring_case_is_an_equivalence(a: Seq<char>, b: Seq<char>, c: Seq<char>)
    ensures
        same_ignoring_case(a, a),
        same_ignoring_case(a, b) ==> same_ignoring_case(b, a),
        same_ignoring_case(a, b) && same_ignoring_case(b, c) ==> same_ignoring_case(a, c),
{
    if same_ignoring_case(a, b) {
        assert forall|i: int| 0 <= i < b.len() implies fold_case(#[trigger] b[i]) == fold_case(
            a[i],
        ) by {
            assert(fold_case(a[i]) == fold_case(b[i]));
        }
        if same_ignoring_case(b, c) {
            assert forall|i: int| 0 <= i < a.len() implies fold_case(#[trigger] a[i]) == fold_case(
                c[i],
            ) by {
                assert(fold_case(b[i]) == fold_case(c[i]));
            }
        }
    }
}

/// The code point of `c`, with the ASCII capitals mapped to their small
/// letters.
pub fn folded(c: char) -> (r: u32)
    ensures
        r == fold_case(c),
{
    if c >= 'A' && c <= 'Z' {
        c as u32 + 32
    } else {
        c as u32
    }
}

/// Whether `a` and `b` are the same text once ASCII letter case is ignored.
pub fn equals_ignoring_case(a: &str, b: &str) -> (r: bool)
    ensures
        r == same_ignoring_case(a@, b@),
{
    let mut other = b.chars();
    for c in it: a.chars()
        invariant
            it.seq() == a@,
            it.index() <= b@.len(),
            other.remaining() == b@.skip(it.index() as int),
            forall|j: int| 0 <= j < it.index() ==> fold_case(#[trigger] a@[j]) == fold_case(b@[j]),
    {
        let ghost k = it.index() as int;
        match other.next() {
            Some(d) => {
                if folded(c) != folded(d) {
                    assert(fold_case(a@[k]) != fold_case(b@[k]));
                    return false;
                }
                proof {
                    assert(b@.skip(k).drop_first() =~= b@.skip(k + 1));
                }
            },
            None => {
                assert(a@.len() > b@.len());
                return false;
            },
        }
    }
    other.next().is_none()
}

/// The decimal digit that stands for `d`, for `d` below ten.
pub open spec fn digit(d: nat) -> char {
    if d == 0 {
        '0'
    } else if d == 1 {
        '1'
    } else if d == 2 {
        '2'
    } else if d == 3 {
        '3'
    } else if d == 4 {
        '4'
    } else if d == 5 {
        '5'
    } else if d == 6 {
        '6'
    } else if d == 7 {
        '7'
    } else if d == 8 {
        '8'
    } else {
        '9'
    }
}

/// The decimal numeral of `n`, without sign or leading zeros.
pub open spec fn decimal(n: nat) -> Seq<char>
    decreases n,
{
    if n < 10 {
        seq![digit(n)]
    } else {
        decimal(n / 10).push(digit(n % 10))
    }
}

fn digit_text(d: u64) -> (r: &'static str)
    requires
        d < 10,
    ensures
        r@ == seq![digit(d as nat)],
{
    proof {
        reveal_strlit("0");
        reveal_strlit("1");
        reveal_strlit("2");
        reveal_strlit("3");
        reveal_strlit("4");
        reveal_strlit("5");
        reveal_strlit("6");
        reveal_strlit("7");
        reveal_strlit("8");
        reveal_strlit("9");
    }
    let r = if d == 0 {
        "0"
    } else if d == 1 {
        "1"
    } else if d == 2 {
        "2"
    } else if d == 3 {
        "3"
    } else if d == 4 {
        "4"
    } else if d == 5 {
        "5"
    } else if d == 6 {
        "6"
    } else if d == 7 {
        "7"
    } else if d == 8 {
        "8"
    } else {
        "9"
    };
    assert(r@ =~= seq![digit(d as nat)]);
    r
}

/// The decimal numeral of `n`, without sign or leading zeros.
pub fn decimal_text(n: u64) -> (r: String)
    ensures
        r@ == decimal(n as nat),
    decreases n,
{
    let last = digit_text(n % 10);
    if n < 10 {
        String::from_str(last)
    } else {
        let r = decimal_text(n / 10).concat(last);
        assert(r@ =~= decimal(n as nat));
        r
    }
}

/// The parts of `parts`, in order, with `sep` between each two neighbours.
pub open spec fn join(parts: Seq<Seq<char>>, sep: Seq<char>) -> Seq<char>
    decreases parts.len(),
{
    if parts.len() == 0 {
        Seq::empty()
    } else if parts.len() == 1 {
        parts[0]
    } else {
        join(parts.drop_last(), sep) + sep + parts.last()
    }
}

/// The parts of `parts`, in order, with `sep` between each two neighbours.
pub fn join_with(parts: &Vec<String>, sep: &str) -> (r: String)
    ensures
        r@ == join(texts(parts@), sep@),
{
    let mut out = String::new();
    let mut i: usize = 0;
    while i < parts.len()
        invariant
            i <= parts@.len(),
            out@ == join(texts(parts@).take(i as int), sep@),
        decreases parts@.len() - i,
    {
        proof {
            let done = texts(parts@).take(i as int);
            let next = texts(parts@).take(i + 1);
            assert(next.drop_last() =~= done);
            assert(next.last() == parts@[i as int]@);
        }
        if i > 0 {
            out.append(sep);
        }
        out.append(parts[i].as_str());
        proof {
            let next = texts(parts@).take(i + 1);
            if i == 0 {
                assert(next[0] == parts@[0]@);
                assert(out@ =~= next[0]);
            }
        }
        i += 1;
    }
    proof {
        assert(texts(parts@).take(parts@.len() as int) =~= texts(parts@));
    }
    out
}

/// The names of `names` in the order of their first occurrence, each once.
pub open spec fn distinct(names: Seq<Seq<char>>) -> Seq<Seq<char>>
    decreases names.len(),
{
    if names.len() == 0 {
        Seq::empty()
    } else if names.drop_last().contains(names.last()) {
        distinct(names.drop_last())
    } else {
        distinct(names.drop_last()).push(names.last())
    }
}

/// `distinct` holds exactly the names of its argument, and each of them once.
pub proof fn lemma_distinct(names: Seq<Seq<char>>)
    ensures
        distinct(names).no_duplicates(),
        distinct(names).len() <= names.len(),
        forall|name: Seq<char>| #[trigger] distinct(names).contains(name) <==> names.contains(name),
    decreases names.len(),
{
    if names.len() > 0 {
        let front = names.drop_last();
        let last = names.last();
        lemma_distinct(front);
        assert(names =~= front.push(last));
        assert forall|name: Seq<char>| #[trigger] distinct(names).contains(name) <==> names.contains(
            name,
        ) by {
            lemma_contains_push(front, last, name);
            lemma_contains_push(distinct(front), last, name);
            assert(distinct(front).contains(name) <==> front.contains(name));
            assert(distinct(front).contains(last) <==> front.contains(last));
        }
        if !front.contains(last) {
            let kept = distinct(front);
            assert(!kept.contains(last));
            assert forall|i: int, j: int|
                0 <= i < kept.push(last).len() && 0 <= j < kept.push(last).len() && i != j implies kept.push(
                last,
            )[i] != kept.push(last)[j] by {
                if i < kept.len() && j < kept.len() {
                    assert(kept[i] != kept[j]);
                } else if i < kept.len() {
                    assert(kept.contains(kept[i]));
                } else {
                    assert(kept.contains(kept[j]));
                }
            }
        }
    }
}

/// Removing repeated names twice removes no more than removing them once.
pub proof fn lemma_distinct_is_idempotent(names: Seq<Seq<char>>)
    ensures
        distinct(distinct(names)) == distinct(names),
    decreases names.len(),
{
    if names.len() > 0 {
        let front = names.drop_last();
        let last = names.last();
        lemma_distinct_is_idempotent(front);
        lemma_distinct(front);
        if !front.contains(last) {
            let kept = distinct(front).push(last);
            assert(kept.drop_last() =~= distinct(front));
            assert(kept.last() == last);
        }
    }
}

/// The names of `names` in the order of their first occurrence, each once.
pub fn distinct_names(names: &Vec<String>) -> (r: Vec<String>)
    ensures
        texts(r@) == distinct(texts(names@)),
        texts(r@).no_duplicates(),
        forall|name: Seq<char>| #[trigger] texts(r@).contains(name) <==> texts(names@).contains(name),
{
    let mut out: Vec<String> = Vec::new();
    let mut i: usize = 0;
    while i < names.len()
        invariant
            i <= names@.len(),
            texts(out@) == distinct(texts(names@).take(i as int)),
        decreases names@.len() - i,
    {
        let ghost done = texts(names@).take(i as int);
        let ghost next = texts(names@).take(i + 1);
        proof {
            assert(next.drop_last() =~= done);
            assert(next.last() == names@[i as int]@);
        }
        let mut seen: bool = false;
        let mut j: usize = 0;
        while j < i
            invariant
                j <= i,
                i < names@.len(),
                done == texts(names@).take(i as int),
                seen == done.take(j as int).contains(names@[i as int]@),
            decreases i - j,
        {
            proof {
                assert(done.take(j + 1) =~= done.take(j as int).push(names@[j as int]@));
                lemma_contains_push(done.take(j as int), names@[j as int]@, names@[i as int]@);
            }
            if names[j] == names[i] {
                seen = true;
            }
            j += 1;
        }
        proof {
            assert(done.take(i as int) =~= done);
        }
        if !seen {
            let ghost before = texts(out@);
            out.push(names[i].clone());
            assert(texts(out@) =~= before.push(names@[i as int]@));
        }
        i += 1;
    }
    proof {
        assert(texts(names@).take(names@.len() as int) =~= texts(names@));
        lemma_distinct(texts(names@));
    }
    out
}

/// What a sequence contains after one more item was added.
proof fn lemma_contains_push(s: Seq<Seq<char>>, added: Seq<char>, sought: Seq<char>)
    ensures
        s.push(added).contains(sought) == (s.contains(sought) || added == sought),
{
    if s.contains(sought) {
        let i = choose|i: int| 0 <= i < s.len() && s[i] == sought;
        assert(s.push(added)[i] == sought);
    }
    if added == sought {
        assert(s.push(added)[s.len() as int] == sought);
    }
    if s.push(added).contains(sought) {
        let i = choose|i: int| 0 <= i < s.push(added).len() && s.push(added)[i] == sought;
        if i < s.len() {
            assert(s[i] == sought);
        }
    }
}

} // verus!
