//! Text primitives shared by the classifier and the remediator: character
//! views of strings, literal substring search, case folding and the line
//! model of a file's content.
use vstd::prelude::*;

verus! {

/// What `str::to_lowercase` returns for a character sequence.
pub uninterp spec fn lower_of(s: Seq<char>) -> Seq<char>;

/// Relies on `str::to_lowercase`: the Unicode lowercase mapping of `s`, which
/// depends on the characters of `s` alone.
#[verifier::external_body]
pub(crate) fn to_lower(s: &str) -> (r: String)
    ensures
        r@ == lower_of(s@),
{
    s.to_lowercase()
}

/// Relies on `String::push`: appends one character at the end.
#[verifier::external_body]
pub(crate) fn push_char(s: &mut String, c: char)
    ensures
        final(s)@ == old(s)@.push(c),
{
    s.push(c)
}

/// The characters of `s`, in order.
pub fn chars_of(s: &str) -> (r: Vec<char>)
    ensures
        r@ == s@,
{
    let mut v: Vec<char> = Vec::new();
    for c in it: s.chars()
        invariant
            it.seq() == s@,
            v@ == s@.take(it.index() as int),
    {
        v.push(c);
        proof {
            assert(v@ =~= s@.take(it.index() as int + 1));
        }
    }
    proof {
        assert(v@ =~= s@);
    }
    v
}

/// `needle` occurs in `hay` starting at position `i`.
pub open spec fn occurs_at(hay: Seq<char>, needle: Seq<char>, i: int) -> bool {
    &&& 0 <= i
    &&& i + needle.len() <= hay.len()
    &&& hay.subrange(i, i + needle.len()) == needle
}

/// `needle` is a contiguous part of `hay` (literal substring containment).
pub open spec fn contains_seq(hay: Seq<char>, needle: Seq<char>) -> bool {
    exists|i: int| #[trigger] occurs_at(hay, needle, i)
}

/// `s` begins with `prefix`.
pub open spec fn starts_with_seq(s: Seq<char>, prefix: Seq<char>) -> bool {
    occurs_at(s, prefix, 0)
}

fn occurs_at_exec(hay: &Vec<char>, needle: &Vec<char>, i: usize) -> (r: bool)
    requires
        i + needle@.len() <= hay@.len(),
    ensures
        r == occurs_at(hay@, needle@, i as int),
{
    let hn: usize = hay.len();
    let mut k: usize = 0;
    while k < needle.len()
        invariant
            hn == hay@.len(),
            k <= needle@.len(),
            i + needle@.len() <= hay@.len(),
            forall|m: int| 0 <= m < k ==> hay@[i + m] == needle@[m],
        decreases needle@.len() - k,
    {
        if hay[i + k] != needle[k] {
            proof {
                assert(hay@.subrange(i as int, i + needle@.len())[k as int] != needle@[k as int]);
            }
            return false;
        }
        k += 1;
    }
    proof {
        assert(hay@.subrange(i as int, i + needle@.len()) =~= needle@);
    }
    true
}

/// Whether `s` begins with `prefix`.
pub fn starts_with_chars(s: &Vec<char>, prefix: &Vec<char>) -> (r: bool)
    ensures
        r == starts_with_seq(s@, prefix@),
{
    if prefix.len() > s.len() {
        return false;
    }
    occurs_at_exec(s, prefix, 0)
}

/// Literal substring search over characters.
pub fn contains_chars(hay: &Vec<char>, needle: &Vec<char>) -> (r: bool)
    ensures
        r == contains_seq(hay@, needle@),
{
    if needle.len() == 0 {
        proof {
            assert(hay@.subrange(0, 0) =~= needle@);
            assert(occurs_at(hay@, needle@, 0));
        }
        return true;
    }
    if needle.len() > hay.len() {
        return false;
    }
    let last: usize = hay.len() - needle.len();
    let mut i: usize = 0;
    while i <= last
        invariant
            last + needle@.len() == hay@.len(),
            hay@.len() <= usize::MAX,
            needle@.len() > 0,
            i <= last + 1,
            forall|j: int| 0 <= j < i ==> !occurs_at(hay@, needle@, j),
        decreases last + 1 - i,
    {
        if occurs_at_exec(hay, needle, i) {
            return true;
        }
        i += 1;
    }
    false
}

/// `line` holds no line feed.
pub open spec fn no_newline(line: Seq<char>) -> bool {
    forall|i: int| 0 <= i < line.len() ==> line[i] != '\n'
}

/// The pieces of `s` between line feeds: one more piece than `s` has line
/// feeds, each piece without a line feed.
pub open spec fn pieces(s: Seq<char>) -> Seq<Seq<char>>
    decreases s.len(),
{
    if s.len() == 0 {
        seq![Seq::<char>::empty()]
    } else {
        let p = pieces(s.drop_last());
        if s.last() == '\n' {
            p.push(Seq::<char>::empty())
        } else {
            p.update(p.len() - 1, p.last().push(s.last()))
        }
    }
}

/// The lines of `s`: the pieces between line feeds, where an empty piece
/// after the final line feed is no line. A carriage return before a line
/// feed stays part of its line.
pub open spec fn lines_of(s: Seq<char>) -> Seq<Seq<char>> {
    let p = pieces(s);
    if p.last().len() == 0 {
        p.drop_last()
    } else {
        p
    }
}

/// Each line followed by a line feed.
pub open spec fn join_lines(ls: Seq<Seq<char>>) -> Seq<char>
    decreases ls.len(),
{
    if ls.len() == 0 {
        Seq::<char>::empty()
    } else {
        join_lines(ls.drop_last()) + ls.last() + seq!['\n']
    }
}

/// Every line of `ls` is free of line feeds.
pub open spec fn all_newline_free(ls: Seq<Seq<char>>) -> bool {
    forall|i: int| 0 <= i < ls.len() ==> no_newline(#[trigger] ls[i])
}

pub proof fn lemma_pieces_shape(s: Seq<char>)
    ensures
        pieces(s).len() >= 1,
        all_newline_free(pieces(s)),
    decreases s.len(),
{
    if s.len() > 0 {
        lemma_pieces_shape(s.drop_last());
        let p = pieces(s.drop_last());
        if s.last() != '\n' {
            let q = pieces(s);
            assert forall|i: int| 0 <= i < q.len() implies no_newline(#[trigger] q[i]) by {
                if i == q.len() - 1 {
                    assert(no_newline(p.last()));
                    assert forall|k: int| 0 <= k < q[i].len() implies q[i][k] != '\n' by {
                        if k < p.last().len() {
                            assert(q[i][k] == p.last()[k]);
                        }
                    }
                } else {
                    assert(q[i] == p[i]);
                }
            }
        } else {
            let q = pieces(s);
            assert forall|i: int| 0 <= i < q.len() implies no_newline(#[trigger] q[i]) by {
                if i < p.len() {
                    assert(q[i] == p[i]);
                }
            }
        }
    }
}

pub proof fn lemma_lines_newline_free(s: Seq<char>)
    ensures
        all_newline_free(lines_of(s)),
{
    lemma_pieces_shape(s);
    let p = pieces(s);
    let l = lines_of(s);
    assert forall|i: int| 0 <= i < l.len() implies no_newline(#[trigger] l[i]) by {
        assert(l[i] == p[i]);
    }
}

proof fn lemma_pieces_append_line(a: Seq<char>, l: Seq<char>)
    requires
        no_newline(l),
    ensures
        pieces(a + l) == pieces(a).update(
            pieces(a).len() - 1,
            pieces(a).last() + l,
        ),
    decreases l.len(),
{
    lemma_pieces_shape(a);
    if l.len() == 0 {
        assert(a + l =~= a);
        assert(pieces(a).last() + l =~= pieces(a).last());
        assert(pieces(a).update(pieces(a).len() - 1, pieces(a).last()) =~= pieces(a));
    } else {
        let l1 = l.drop_last();
        assert(no_newline(l1));
        lemma_pieces_append_line(a, l1);
        let s = a + l;
        assert(s.drop_last() =~= a + l1);
        assert(s.last() == l.last());
        assert(l.last() != '\n');
        let p1 = pieces(a + l1);
        assert(p1.last() == pieces(a).last() + l1);
        assert(pieces(a).last() + l1 + seq![l.last()] =~= pieces(a).last() + l);
        assert(p1.last().push(l.last()) =~= pieces(a).last() + l);
        assert(pieces(s) =~= pieces(a).update(pieces(a).len() - 1, pieces(a).last() + l));
    }
}

proof fn lemma_pieces_of_join(ls: Seq<Seq<char>>)
    requires
        all_newline_free(ls),
    ensures
        pieces(join_lines(ls)) == ls.push(Seq::<char>::empty()),
    decreases ls.len(),
{
    if ls.len() == 0 {
        assert(pieces(join_lines(ls)) =~= ls.push(Seq::<char>::empty()));
    } else {
        let init = ls.drop_last();
        assert(all_newline_free(init)) by {
            assert forall|i: int| 0 <= i < init.len() implies no_newline(#[trigger] init[i]) by {
                assert(init[i] == ls[i]);
            }
        }
        lemma_pieces_of_join(init);
        let j0 = join_lines(init);
        let l = ls.last();
        assert(no_newline(ls[ls.len() - 1]));
        lemma_pieces_append_line(j0, l);
        let s = join_lines(ls);
        assert(s == j0 + l + seq!['\n']);
        assert(s.drop_last() =~= j0 + l);
        assert(s.last() == '\n');
        assert(init.push(Seq::<char>::empty()).update(init.len() as int, Seq::<char>::empty() + l)
            =~= ls);
        assert(pieces(s) =~= ls.push(Seq::<char>::empty()));
    }
}

/// Splitting the joined lines gives back the same lines.
pub proof fn lemma_lines_of_join(ls: Seq<Seq<char>>)
    requires
        all_newline_free(ls),
    ensures
        lines_of(join_lines(ls)) == ls,
{
    lemma_pieces_of_join(ls);
    assert(ls.push(Seq::<char>::empty()).drop_last() =~= ls);
}

/// The lines of `content`, as `lines_of` describes them.
pub fn split_lines(content: &str) -> (r: Vec<String>)
    ensures
        r@.len() == lines_of(content@).len(),
        forall|i: int| 0 <= i < r@.len() ==> #[trigger] r@[i]@ == lines_of(content@)[i],
{
    let ghost s = content@;
    let mut done: Vec<String> = Vec::new();
    let mut cur = String::new();
    for c in it: content.chars()
        invariant
            it.seq() == s,
            it.index() <= s.len(),
            done@.len() + 1 == pieces(s.take(it.index() as int)).len(),
            forall|i: int|
                0 <= i < done@.len() ==> #[trigger] done@[i]@ == pieces(
                    s.take(it.index() as int),
                )[i],
            cur@ == pieces(s.take(it.index() as int)).last(),
    {
        let ghost before = s.take(it.index() as int);
        let ghost after = s.take(it.index() as int + 1);
        proof {
            assert(after.drop_last() =~= before);
            assert(after.last() == c);
            lemma_pieces_shape(before);
        }
        if c == '\n' {
            let ghost prev = done@;
            let line = cur;
            done.push(line);
            cur = String::new();
            proof {
                assert forall|i: int| 0 <= i < done@.len() implies #[trigger] done@[i]@ == pieces(
                    after,
                )[i] by {
                    if i < done@.len() - 1 {
                        assert(done@[i] == prev[i]);
                    }
                }
            }
        } else {
            push_char(&mut cur, c);
        }
    }
    proof {
        assert(s.take(s.len() as int) =~= s);
        lemma_pieces_shape(s);
    }
    if !cur.as_str().is_empty() {
        done.push(cur);
    }
    done
}

/// The parts joined with `sep` between each two neighbours.
pub open spec fn join_with(parts: Seq<Seq<char>>, sep: Seq<char>) -> Seq<char>
    decreases parts.len(),
{
    if parts.len() == 0 {
        Seq::<char>::empty()
    } else if parts.len() == 1 {
        parts[0]
    } else {
        join_with(parts.drop_last(), sep) + sep + parts.last()
    }
}

/// The views of the strings in `v`.
pub open spec fn views(v: Seq<String>) -> Seq<Seq<char>> {
    v.map_values(|s: String| s@)
}

/// Joins the parts with `sep` between each two neighbours.
pub fn join_strings(parts: &Vec<String>, sep: &str) -> (r: String)
    ensures
        r@ == join_with(views(parts@), sep@),
{
    let mut out = String::new();
    let mut i: usize = 0;
    while i < parts.len()
        invariant
            i <= parts@.len(),
            out@ == join_with(views(parts@.take(i as int)), sep@),
        decreases parts@.len() - i,
    {
        let ghost before = parts@.take(i as int);
        let ghost after = parts@.take(i as int + 1);
        proof {
            assert(views(after).drop_last() =~= views(before));
            assert(views(after).last() == parts@[i as int]@);
        }
        if i > 0 {
            out.append(sep);
        }
        out.append(parts[i].as_str());
        proof {
            if i == 0 {
                assert(out@ =~= views(after)[0]);
            }
        }
        i += 1;
    }
    proof {
        assert(parts@.take(parts@.len() as int) =~= parts@);
    }
    out
}

} // verus!
