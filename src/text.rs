use vstd::prelude::*;

verus! {

/// The pieces of `s` between single space characters, in order. Like
/// `str::split(' ')`, two adjacent spaces give an empty piece between them,
/// and the empty text gives one empty piece.
pub open spec fn split_on_space(s: Seq<char>) -> Seq<Seq<char>>
    decreases s.len(),
{
    if s.len() == 0 {
        seq![Seq::empty()]
    } else {
        let rest = split_on_space(s.drop_last());
        if s.last() == ' ' {
            rest.push(Seq::empty())
        } else {
            rest.update(rest.len() - 1, rest.last().push(s.last()))
        }
    }
}

/// Text without a space character.
pub open spec fn has_no_space(s: Seq<char>) -> bool {
    forall|i: int| 0 <= i < s.len() ==> s[i] != ' '
}

/// Appending text without a space extends the last piece.
pub proof fn lemma_split_extend(x: Seq<char>, y: Seq<char>)
    requires
        has_no_space(y),
    ensures
        split_on_space(x).len() >= 1,
        split_on_space(x + y) == split_on_space(x).update(
            split_on_space(x).len() - 1,
            split_on_space(x).last() + y,
        ),
    decreases y.len(),
{
    lemma_split_nonempty(x);
    if y.len() == 0 {
        assert(x + y =~= x);
        let p = split_on_space(x);
        assert(p.last() + y =~= p.last());
        assert(p.update(p.len() - 1, p.last()) =~= p);
    } else {
        let y0 = y.drop_last();
        lemma_split_extend(x, y0);
        assert((x + y).drop_last() =~= x + y0);
        assert((x + y).last() == y.last());
        let p = split_on_space(x);
        let q = split_on_space(x + y0);
        assert(y.last() != ' ');
        assert(q.len() == p.len());
        assert(q.last() == p.last() + y0);
        assert(q.last().push(y.last()) =~= p.last() + y);
        assert(q.update(q.len() - 1, q.last().push(y.last())) =~= p.update(p.len() - 1, p.last() + y));
    }
}

proof fn lemma_split_nonempty(s: Seq<char>)
    ensures
        split_on_space(s).len() >= 1,
    decreases s.len(),
{
    if s.len() > 0 {
        lemma_split_nonempty(s.drop_last());
    }
}

/// Two texts without spaces, joined by one space, split into the two.
pub proof fn lemma_split_pair(a: Seq<char>, b: Seq<char>)
    requires
        has_no_space(a),
        has_no_space(b),
    ensures
        split_on_space(a + seq![' '] + b) == seq![a, b],
{
    let e = Seq::<char>::empty();
    assert(split_on_space(e) == seq![e]);
    lemma_split_extend(e, a);
    assert(e + a =~= a);
    assert(seq![e].update(0, e + a) =~= seq![a]);
    let a1 = a + seq![' '];
    assert(a1.drop_last() =~= a);
    assert(split_on_space(a1) == seq![a].push(e));
    lemma_split_extend(a1, b);
    assert(seq![a, e].update(1, e + b) =~= seq![a, b]);
}

pub open spec fn views(v: Seq<String>) -> Seq<Seq<char>> {
    v.map_values(|x: String| x@)
}

/// Whether two texts hold the same characters.
pub fn same_text(a: &str, b: &str) -> (r: bool)
    ensures
        r == (a@ == b@),
{
    let n = a.unicode_len();
    if n != b.unicode_len() {
        return false;
    }
    let mut i: usize = 0;
    while i < n
        invariant
            n == a@.len(),
            n == b@.len(),
            i <= n,
            forall|j: int| 0 <= j < i ==> a@[j] == b@[j],
        decreases n - i,
    {
        if a.get_char(i) != b.get_char(i) {
            return false;
        }
        i = i + 1;
    }
    assert(a@ =~= b@);
    true
}

/// Splits rendered runtime flags on single spaces. A flag value that itself
/// holds a space therefore ends up as several flags: there is no quoting.
pub fn split_flags(s: &str) -> (r: Vec<String>)
    ensures
        views(r@) == split_on_space(s@),
{
    let n = s.unicode_len();
    let mut pieces: Vec<String> = Vec::new();
    let mut start: usize = 0;
    let mut i: usize = 0;
    proof {
        assert(s@.take(0) =~= Seq::<char>::empty());
        assert(views(pieces@).push(s@.subrange(0, 0)) =~= seq![Seq::<char>::empty()]);
    }
    while i < n
        invariant
            n == s@.len(),
            start <= i <= n,
            split_on_space(s@.take(i as int)) == views(pieces@).push(s@.subrange(start as int, i as int)),
        decreases n - i,
    {
        let c = s.get_char(i);
        proof {
            let t = s@.take(i as int + 1);
            assert(t.drop_last() =~= s@.take(i as int));
            assert(t.last() == c);
        }
        if c == ' ' {
            let piece = String::from_str(s.substring_char(start, i));
            proof {
                assert(views(pieces@.push(piece)) =~= views(pieces@).push(piece@));
                assert(s@.subrange(i as int + 1, i as int + 1) =~= Seq::<char>::empty());
            }
            pieces.push(piece);
            start = i + 1;
        } else {
            proof {
                assert(s@.subrange(start as int, i as int).push(c) =~= s@.subrange(start as int, i as int + 1));
                let rest = views(pieces@).push(s@.subrange(start as int, i as int));
                assert(rest.update(rest.len() - 1, rest.last().push(c)) =~= views(pieces@).push(s@.subrange(start as int, i as int + 1)));
            }
        }
        i = i + 1;
    }
    let last = String::from_str(s.substring_char(start, n));
    proof {
        assert(s@.take(n as int) =~= s@);
        assert(views(pieces@.push(last)) =~= views(pieces@).push(last@));
    }
    pieces.push(last);
    pieces
}

} // verus!
