//! Text as sequences of characters: splitting at a separator, trimming white
//! space, comparing without regard to ASCII case, and building strings.
use vstd::prelude::*;

verus! {

broadcast use vstd::string::group_string_axioms;

/// The pieces of `s` between occurrences of `sep`, left to right.
///
/// With `limit == Some(n)` (`n >= 1`) there are at most `n` pieces: once
/// `n` pieces exist, later separators stay inside the last piece (as
/// `str::splitn` does). With `limit == None` every separator splits (as
/// `str::split` does). There is always at least one piece.
pub open spec fn split_spec(s: Seq<char>, sep: char, limit: Option<nat>) -> Seq<Seq<char>>
    decreases s.len(),
{
    if s.len() == 0 {
        seq![Seq::<char>::empty()]
    } else {
        let r = split_spec(s.drop_last(), sep, limit);
        if s.last() == sep && (limit is None || r.len() < limit->0) {
            r.push(Seq::<char>::empty())
        } else {
            r.update(r.len() - 1, r.last().push(s.last()))
        }
    }
}

/// `s.split(sep)`.
pub open spec fn split_all(s: Seq<char>, sep: char) -> Seq<Seq<char>> {
    split_spec(s, sep, None)
}

/// `s.splitn(n, sep)`.
pub open spec fn splitn(s: Seq<char>, n: nat, sep: char) -> Seq<Seq<char>> {
    split_spec(s, sep, Some(n))
}

/// A split never yields fewer than one piece.
pub proof fn lemma_split_nonempty(s: Seq<char>, sep: char, limit: Option<nat>)
    ensures
        split_spec(s, sep, limit).len() >= 1,
    decreases s.len(),
{
    if s.len() > 0 {
        lemma_split_nonempty(s.drop_last(), sep, limit);
    }
}

/// The texts held by a list of character vectors.
pub open spec fn pieces_view(v: Seq<Vec<char>>) -> Seq<Seq<char>> {
    v.map_values(|p: Vec<char>| p@)
}

/// Splits `s` at `sep` into at most `limit` pieces (`None`: no limit).
pub fn split_chars(s: &[char], sep: char, limit: Option<usize>) -> (res: Vec<Vec<char>>)
    requires
        limit matches Some(n) ==> n >= 1,
    ensures
        pieces_view(res@) == split_spec(
            s@,
            sep,
            match limit {
                Some(n) => Some(n as nat),
                None => None,
            },
        ),
        res.len() >= 1,
{
    let ghost lim: Option<nat> = match limit {
        Some(n) => Some(n as nat),
        None => None,
    };
    let mut done: Vec<Vec<char>> = Vec::new();
    let mut current: Vec<char> = Vec::new();
    let mut i: usize = 0;
    assert(s@.take(0) =~= Seq::<char>::empty());
    while i < s.len()
        invariant
            i <= s.len(),
            limit matches Some(n) ==> n >= 1,
            pieces_view(done@).push(current@) =~= split_spec(s@.take(i as int), sep, lim),
            lim == match limit {
                Some(n) => Some(n as nat),
                None => None::<nat>,
            },
        decreases s.len() - i,
    {
        let c = s[i];
        let ghost prefix = s@.take(i as int + 1);
        assert(prefix.drop_last() =~= s@.take(i as int));
        assert(prefix.last() == c);
        let room = match limit {
            Some(n) => done.len() < n - 1,
            None => true,
        };
        if c == sep && room {
            let ghost old_done = pieces_view(done@);
            let ghost old_current = current@;
            done.push(current);
            current = Vec::new();
            assert(pieces_view(done@) =~= old_done.push(old_current));
        } else {
            let ghost old_done = pieces_view(done@);
            let ghost old_current = current@;
            current.push(c);
            assert(pieces_view(done@).push(current@) =~= old_done.push(old_current).update(
                old_done.len() as int,
                old_current.push(c),
            ));
        }
        i = i + 1;
    }
    assert(s@.take(s.len() as int) =~= s@);
    let ghost old_done = pieces_view(done@);
    done.push(current);
    assert(pieces_view(done@) =~= old_done.push(current@));
    done
}

/// The characters that Unicode gives the White_Space property, which is
/// what `char::is_whitespace` tests and what `str::trim` removes.
pub open spec fn is_white_space_spec(c: char) -> bool {
    let u = c as u32;
    ||| 9 <= u <= 13
    ||| u == 32
    ||| u == 0x85
    ||| u == 0xa0
    ||| u == 0x1680
    ||| 0x2000 <= u <= 0x200a
    ||| u == 0x2028
    ||| u == 0x2029
    ||| u == 0x202f
    ||| u == 0x205f
    ||| u == 0x3000
}

/// Whether `c` is white space.
pub fn is_white_space(c: char) -> (res: bool)
    ensures
        res == is_white_space_spec(c),
{
    let u = c as u32;
    (9 <= u && u <= 13) || u == 32 || u == 0x85 || u == 0xa0 || u == 0x1680 || (0x2000 <= u && u
        <= 0x200a) || u == 0x2028 || u == 0x2029 || u == 0x202f || u == 0x205f || u == 0x3000
}

/// `s` without its leading white space.
pub open spec fn trim_start(s: Seq<char>) -> Seq<char>
    decreases s.len(),
{
    if s.len() > 0 && is_white_space_spec(s[0]) {
        trim_start(s.drop_first())
    } else {
        s
    }
}

/// `s` without its trailing white space.
pub open spec fn trim_end(s: Seq<char>) -> Seq<char>
    decreases s.len(),
{
    if s.len() > 0 && is_white_space_spec(s.last()) {
        trim_end(s.drop_last())
    } else {
        s
    }
}

/// `s` without white space at either end (`str::trim`).
pub open spec fn trim(s: Seq<char>) -> Seq<char> {
    trim_end(trim_start(s))
}

/// The characters of `s` without white space at either end.
pub fn trim_chars(s: &[char]) -> (res: &[char])
    ensures
        res@ == trim(s@),
{
    let mut a: usize = 0;
    assert(s@.skip(0) =~= s@);
    while a < s.len() && is_white_space(s[a])
        invariant
            a <= s.len(),
            trim_start(s@) == trim_start(s@.skip(a as int)),
        decreases s.len() - a,
    {
        assert(s@.skip(a as int).drop_first() =~= s@.skip(a as int + 1));
        a = a + 1;
    }
    let ghost start = s@.skip(a as int);
    assert(trim_start(start) == start);
    let mut b: usize = s.len();
    assert(start.take(start.len() as int) =~= start);
    while b > a && is_white_space(s[b - 1])
        invariant
            a <= b <= s.len(),
            start == s@.skip(a as int),
            trim_end(start) == trim_end(s@.subrange(a as int, b as int)),
        decreases b,
    {
        assert(s@.subrange(a as int, b as int).drop_last() =~= s@.subrange(a as int, b - 1));
        b = b - 1;
    }
    assert(start =~= s@.subrange(a as int, s.len() as int));
    &s[a..b]
}

/// `c` with an ASCII capital letter turned into its small letter.
pub open spec fn ascii_lower(c: char) -> char {
    if 'A' <= c <= 'Z' {
        ((c as u32) + 32) as char
    } else {
        c
    }
}

/// Whether `a` and `b` are equal when ASCII letters are compared without
/// regard to case (`str::eq_ignore_ascii_case`).
pub open spec fn eq_ignore_ascii_case_spec(a: Seq<char>, b: Seq<char>) -> bool {
    &&& a.len() == b.len()
    &&& forall|i: int| 0 <= i < a.len() ==> ascii_lower(#[trigger] a[i]) == ascii_lower(b[i])
}

fn to_ascii_lower(c: char) -> (res: char)
    ensures
        res == ascii_lower(c),
{
    if 'A' <= c && c <= 'Z' {
        let u = (c as u32) + 32;
        assert(u <= 0x7f);
        char_from_ascii(u as u8)
    } else {
        c
    }
}

/// The character whose code is the ASCII code `b`.
fn char_from_ascii(b: u8) -> (res: char)
    requires
        b <= 0x7f,
    ensures
        res as u32 == b as u32,
{
    b as char
}

/// Whether `a` and `b` are equal without regard to ASCII case.
pub fn eq_ignore_ascii_case(a: &[char], b: &[char]) -> (res: bool)
    ensures
        res == eq_ignore_ascii_case_spec(a@, b@),
{
    if a.len() != b.len() {
        return false;
    }
    let mut i: usize = 0;
    while i < a.len()
        invariant
            a.len() == b.len(),
            i <= a.len(),
            forall|j: int| 0 <= j < i ==> ascii_lower(#[trigger] a@[j]) == ascii_lower(b@[j]),
        decreases a.len() - i,
    {
        if to_ascii_lower(a[i]) != to_ascii_lower(b[i]) {
            return false;
        }
        i = i + 1;
    }
    true
}

/// Whether the characters `a` spell out `b`.
pub fn chars_eq_str(a: &[char], b: &str) -> (res: bool)
    ensures
        res == (a@ == b@),
{
    let bc = to_chars(b);
    if a.len() != bc.len() {
        return false;
    }
    let mut i: usize = 0;
    while i < a.len()
        invariant
            a.len() == bc.len(),
            bc@ == b@,
            i <= a.len(),
            forall|j: int| 0 <= j < i ==> a@[j] == bc@[j],
        decreases a.len() - i,
    {
        if a[i] != bc[i] {
            return false;
        }
        i = i + 1;
    }
    assert(a@ =~= bc@);
    true
}

/// The characters of `s`, one by one.
pub fn to_chars(s: &str) -> (res: Vec<char>)
    ensures
        res@ == s@,
{
    let mut res: Vec<char> = Vec::new();
    for c in it: s.chars()
        invariant
            res@ == it.seq().take(it.index() as int),
            it.seq() == s@,
    {
        res.push(c);
    }
    res
}

/// `String::push`: appends the character `c` to `s`.
#[verifier::external_body]
pub(crate) fn push_char(s: &mut String, c: char)
    ensures
        final(s)@ == old(s)@.push(c),
{
    s.push(c);
}

/// A string holding the characters `cs`.
pub fn string_from_chars(cs: &[char]) -> (res: String)
    ensures
        res@ == cs@,
{
    let mut res = String::new();
    let mut i: usize = 0;
    while i < cs.len()
        invariant
            i <= cs.len(),
            res@ == cs@.take(i as int),
        decreases cs.len() - i,
    {
        push_char(&mut res, cs[i]);
        assert(cs@.take(i as int + 1) =~= cs@.take(i as int).push(cs@[i as int]));
        i = i + 1;
    }
    assert(cs@.take(cs.len() as int) =~= cs@);
    res
}


/// Text without `sep` is one piece, however many pieces are allowed.
pub proof fn lemma_split_without_sep(s: Seq<char>, sep: char, n: nat)
    requires
        n >= 1,
        forall|i: int| 0 <= i < s.len() ==> s[i] != sep,
    ensures
        splitn(s, n, sep) == seq![s],
    decreases s.len(),
{
    if s.len() > 0 {
        lemma_split_without_sep(s.drop_last(), sep, n);
        assert(s.drop_last().push(s.last()) =~= s);
        assert(seq![s.drop_last()].update(0, s.drop_last().push(s.last())) =~~= seq![s]);
    } else {
        assert(s =~= Seq::<char>::empty());
    }
}

/// Splitting into two pieces cuts at the first `sep` only: what follows it
/// is the second piece, unchanged, `sep`s and all.
pub proof fn lemma_split_two(a: Seq<char>, sep: char, b: Seq<char>)
    requires
        forall|i: int| 0 <= i < a.len() ==> a[i] != sep,
    ensures
        splitn(a + seq![sep] + b, 2, sep) == seq![a, b],
    decreases b.len(),
{
    let s = a + seq![sep] + b;
    if b.len() == 0 {
        lemma_split_without_sep(a, sep, 2);
        assert(s.drop_last() =~= a);
        assert(s =~= a.push(sep));
        assert(b =~= Seq::<char>::empty());
        assert(seq![a].push(Seq::<char>::empty()) =~~= seq![a, b]);
    } else {
        lemma_split_two(a, sep, b.drop_last());
        assert(s.drop_last() =~= a + seq![sep] + b.drop_last());
        assert(b.drop_last().push(b.last()) =~= b);
        assert(seq![a, b.drop_last()].update(1, b.drop_last().push(b.last())) =~~= seq![a, b]);
    }
}


/// The pieces put back together with `sep` between them.
pub open spec fn join_pieces(ps: Seq<Seq<char>>, sep: char) -> Seq<char>
    decreases ps.len(),
{
    if ps.len() == 0 {
        Seq::<char>::empty()
    } else if ps.len() == 1 {
        ps[0]
    } else {
        join_pieces(ps.drop_last(), sep) + seq![sep] + ps.last()
    }
}

/// Splitting loses nothing: the pieces joined with the separator give the
/// text back, with or without a limit on the pieces.
pub proof fn lemma_split_join(s: Seq<char>, sep: char, limit: Option<nat>)
    requires
        limit matches Some(n) ==> n >= 1,
    ensures
        join_pieces(split_spec(s, sep, limit), sep) == s,
    decreases s.len(),
{
    if s.len() == 0 {
        assert(s =~= Seq::<char>::empty());
    } else {
        let r = split_spec(s.drop_last(), sep, limit);
        lemma_split_join(s.drop_last(), sep, limit);
        lemma_split_nonempty(s.drop_last(), sep, limit);
        if s.last() == sep && (limit is None || r.len() < limit->0) {
            let ps = r.push(Seq::<char>::empty());
            assert(ps.drop_last() =~= r);
            assert(s.drop_last() + seq![sep] + Seq::<char>::empty() =~= s);
        } else {
            let ps = r.update(r.len() - 1, r.last().push(s.last()));
            if r.len() == 1 {
                assert(s.drop_last().push(s.last()) =~= s);
            } else {
                assert(ps.drop_last() =~= r.drop_last());
                assert(join_pieces(r.drop_last(), sep) + seq![sep] + r.last().push(s.last()) =~= (
                join_pieces(r.drop_last(), sep) + seq![sep] + r.last()).push(s.last()));
                assert(s.drop_last().push(s.last()) =~= s);
            }
        }
    }
}

/// Whether `s` holds no `sep`.
pub open spec fn free_of(s: Seq<char>, sep: char) -> bool {
    forall|i: int| 0 <= i < s.len() ==> #[trigger] s[i] != sep
}

/// Text without `sep` is one piece, with or without a limit.
pub proof fn lemma_split_free(s: Seq<char>, sep: char, limit: Option<nat>)
    requires
        free_of(s, sep),
        limit matches Some(n) ==> n >= 1,
    ensures
        split_spec(s, sep, limit) == seq![s],
    decreases s.len(),
{
    if s.len() > 0 {
        assert(free_of(s.drop_last(), sep)) by {
            assert forall|i: int| 0 <= i < s.drop_last().len() implies #[trigger] s.drop_last()[i] != sep by {
                assert(s.drop_last()[i] == s[i]);
            }
        }
        lemma_split_free(s.drop_last(), sep, limit);
        assert(s.last() == s[s.len() - 1]);
        assert(s.drop_last().push(s.last()) =~= s);
        assert(seq![s.drop_last()].update(0, s.drop_last().push(s.last())) =~~= seq![s]);
    } else {
        assert(s =~= Seq::<char>::empty());
    }
}

/// The limit left for what follows the first piece.
pub open spec fn limit_after_first(limit: Option<nat>) -> Option<nat> {
    match limit {
        Some(n) => Some((n - 1) as nat),
        None => None,
    }
}

/// Splitting law: when the first piece `a` holds no `sep`, the pieces of
/// `a`, `sep`, `d` are `a` followed by the pieces of `d`, with one piece
/// fewer allowed.
pub proof fn lemma_split_first(a: Seq<char>, sep: char, d: Seq<char>, limit: Option<nat>)
    requires
        free_of(a, sep),
        limit matches Some(n) ==> n >= 2,
    ensures
        split_spec(a + seq![sep] + d, sep, limit) == seq![a] + split_spec(d, sep, limit_after_first(limit)),
    decreases d.len(),
{
    let rest = limit_after_first(limit);
    let s = a + seq![sep] + d;
    lemma_split_nonempty(d, sep, rest);
    if d.len() == 0 {
        lemma_split_free(a, sep, limit);
        assert(s.drop_last() =~= a);
        assert(d =~= Seq::<char>::empty());
        assert(seq![a].push(Seq::<char>::empty()) =~= seq![a] + seq![Seq::<char>::empty()]);
    } else {
        lemma_split_first(a, sep, d.drop_last(), limit);
        lemma_split_nonempty(d.drop_last(), sep, rest);
        assert(s.drop_last() =~= a + seq![sep] + d.drop_last());
        assert(s.last() == d.last());
        let r = split_spec(d.drop_last(), sep, rest);
        assert((seq![a] + r).push(Seq::<char>::empty()) =~= seq![a] + r.push(Seq::<char>::empty()));
        assert((seq![a] + r).update(r.len() as int, r.last().push(d.last())) =~= seq![a] + r.update(
            r.len() - 1,
            r.last().push(d.last()),
        ));
    }
}

/// With a limit of one piece, nothing splits.
pub proof fn lemma_split_one(s: Seq<char>, sep: char)
    ensures
        split_spec(s, sep, Some(1)) == seq![s],
    decreases s.len(),
{
    if s.len() > 0 {
        lemma_split_one(s.drop_last(), sep);
        assert(s.drop_last().push(s.last()) =~= s);
        assert(seq![s.drop_last()].update(0, s.drop_last().push(s.last())) =~~= seq![s]);
    } else {
        assert(s =~= Seq::<char>::empty());
    }
}

proof fn lemma_trim_start_shape(s: Seq<char>)
    ensures
        exists|i: int|
            0 <= i <= s.len() && trim_start(s) == s.skip(i) && forall|k: int|
                0 <= k < i ==> is_white_space_spec(#[trigger] s[k]),
        trim_start(s).len() > 0 ==> !is_white_space_spec(trim_start(s)[0]),
    decreases s.len(),
{
    if s.len() > 0 && is_white_space_spec(s[0]) {
        let t = s.drop_first();
        lemma_trim_start_shape(t);
        let i = choose|i: int|
            0 <= i <= t.len() && trim_start(t) == t.skip(i) && forall|k: int|
                0 <= k < i ==> is_white_space_spec(#[trigger] t[k]);
        assert(t.skip(i) =~= s.skip(i + 1));
        assert forall|k: int| 0 <= k < i + 1 implies is_white_space_spec(#[trigger] s[k]) by {
            if k > 0 {
                assert(s[k] == t[k - 1]);
            }
        }
    } else {
        assert(s.skip(0) =~= s);
    }
}

proof fn lemma_trim_end_shape(s: Seq<char>)
    ensures
        exists|j: int|
            0 <= j <= s.len() && trim_end(s) == s.take(j) && forall|k: int|
                j <= k < s.len() ==> is_white_space_spec(#[trigger] s[k]),
        trim_end(s).len() > 0 ==> !is_white_space_spec(trim_end(s).last()),
        trim_end(s).len() > 0 ==> trim_end(s)[0] == s[0],
    decreases s.len(),
{
    if s.len() > 0 && is_white_space_spec(s.last()) {
        let t = s.drop_last();
        lemma_trim_end_shape(t);
        let j = choose|j: int|
            0 <= j <= t.len() && trim_end(t) == t.take(j) && forall|k: int|
                j <= k < t.len() ==> is_white_space_spec(#[trigger] t[k]);
        assert(t.take(j) =~= s.take(j));
        assert forall|k: int| j <= k < s.len() implies is_white_space_spec(#[trigger] s[k]) by {
            if k < t.len() {
                assert(s[k] == t[k]);
            }
        }
    } else {
        assert(s.take(s.len() as int) =~= s);
    }
}

/// Trimming law: `trim(s)` is one unbroken piece of `s`; all that it leaves
/// out before and after that piece is white space, and the piece neither
/// starts nor ends with white space.
pub proof fn lemma_trim_shape(s: Seq<char>)
    ensures
        exists|i: int, j: int|
            0 <= i <= j <= s.len() && trim(s) == s.subrange(i, j) && forall|k: int|
                (0 <= k < i || j <= k < s.len()) ==> is_white_space_spec(#[trigger] s[k]),
        trim(s).len() > 0 ==> !is_white_space_spec(trim(s)[0]) && !is_white_space_spec(trim(s).last()),
{
    lemma_trim_start_shape(s);
    let i = choose|i: int|
        0 <= i <= s.len() && trim_start(s) == s.skip(i) && forall|k: int|
            0 <= k < i ==> is_white_space_spec(#[trigger] s[k]);
    let t = trim_start(s);
    lemma_trim_end_shape(t);
    let j = choose|j: int|
        0 <= j <= t.len() && trim_end(t) == t.take(j) && forall|k: int|
            j <= k < t.len() ==> is_white_space_spec(#[trigger] t[k]);
    assert(t.take(j) =~= s.subrange(i, i + j));
    assert forall|k: int| (0 <= k < i || i + j <= k < s.len()) implies is_white_space_spec(#[trigger] s[k]) by {
        if k >= i + j {
            assert(s[k] == t[k - i]);
        }
    }
}

} // verus!
