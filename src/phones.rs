use vstd::prelude::*;

verus! {

broadcast use vstd::string::group_string_axioms;

/// The character that separates phone numbers in a list.
pub const PHONE_SEPARATOR: char = ',';

/// The pieces of `s` between occurrences of `sep`, in order. Empty pieces are
/// kept: an empty text is one empty piece, and a trailing separator gives a
/// trailing empty piece.
pub open spec fn split_on(s: Seq<char>, sep: char) -> Seq<Seq<char>>
    decreases s.len(),
{
    if s.len() == 0 {
        seq![Seq::empty()]
    } else {
        let pieces = split_on(s.drop_last(), sep);
        if s.last() == sep {
            pieces.push(Seq::empty())
        } else {
            pieces.update(pieces.len() - 1, pieces.last().push(s.last()))
        }
    }
}

/// The pieces of `tokens` written one after another with `sep` between each
/// two neighbours.
pub open spec fn join_on(tokens: Seq<Seq<char>>, sep: char) -> Seq<char>
    decreases tokens.len(),
{
    if tokens.len() == 0 {
        Seq::empty()
    } else if tokens.len() == 1 {
        tokens[0]
    } else {
        join_on(tokens.drop_last(), sep).push(sep) + tokens.last()
    }
}

/// The texts held by a vector of strings.
pub open spec fn tokens_view(v: Seq<String>) -> Seq<Seq<char>> {
    v.map_values(|t: String| t@)
}

proof fn lemma_split_on_nonempty(s: Seq<char>, sep: char)
    ensures
        split_on(s, sep).len() >= 1,
    decreases s.len(),
{
    if s.len() > 0 {
        lemma_split_on_nonempty(s.drop_last(), sep);
    }
}

/// Appending text that holds no separator extends the last piece only.
proof fn lemma_split_append(p: Seq<char>, t: Seq<char>, sep: char)
    requires
        !t.contains(sep),
    ensures
        split_on(p + t, sep) == split_on(p, sep).update(
            split_on(p, sep).len() - 1,
            split_on(p, sep).last() + t,
        ),
    decreases t.len(),
{
    lemma_split_on_nonempty(p, sep);
    let sp = split_on(p, sep);
    if t.len() == 0 {
        assert(p + t =~= p);
        assert(sp.last() + t =~= sp.last());
        assert(sp.update(sp.len() - 1, sp.last()) =~= sp);
    } else {
        let t0 = t.drop_last();
        assert(!t0.contains(sep)) by {
            if t0.contains(sep) {
                let k = choose|k: int| 0 <= k < t0.len() && t0[k] == sep;
                assert(t[k] == sep);
            }
        }
        assert(t.last() != sep) by {
            assert(t[t.len() - 1] == t.last());
        }
        lemma_split_append(p, t0, sep);
        assert((p + t).drop_last() =~= p + t0);
        assert((p + t).last() == t.last());
        assert((sp.last() + t0).push(t.last()) =~= sp.last() + t);
        let q = split_on(p + t0, sep);
        assert(q.update(q.len() - 1, q.last().push(t.last())) =~= sp.update(
            sp.len() - 1,
            sp.last() + t,
        ));
    }
}

/// Splitting a joined list on the separator gives the list back, when the
/// list is not empty and no piece holds the separator.
pub proof fn lemma_split_join(tokens: Seq<Seq<char>>, sep: char)
    requires
        tokens.len() >= 1,
        forall|i: int| 0 <= i < tokens.len() ==> !(#[trigger] tokens[i]).contains(sep),
    ensures
        split_on(join_on(tokens, sep), sep) == tokens,
    decreases tokens.len(),
{
    if tokens.len() == 1 {
        let t = tokens[0];
        lemma_split_append(Seq::empty(), t, sep);
        assert(Seq::<char>::empty() + t =~= t);
        assert(split_on(Seq::<char>::empty(), sep) =~= seq![Seq::<char>::empty()]);
        assert(Seq::<char>::empty() + t =~= t);
        assert(tokens =~= seq![t]);
    } else {
        let init = tokens.drop_last();
        let t = tokens.last();
        assert(!t.contains(sep)) by {
            assert(tokens[tokens.len() - 1] == t);
        }
        assert forall|i: int| 0 <= i < init.len() implies !(#[trigger] init[i]).contains(sep) by {
            assert(init[i] == tokens[i]);
        }
        lemma_split_join(init, sep);
        let j = join_on(init, sep).push(sep);
        assert(j.drop_last() =~= join_on(init, sep));
        lemma_split_append(j, t, sep);
        let sj = split_on(j, sep);
        assert(sj == init.push(Seq::empty()));
        assert(Seq::<char>::empty() + t =~= t);
        assert(sj.update(sj.len() - 1, sj.last() + t) =~= tokens);
    }
}

/// Splits a comma-separated list of phone numbers into its entries, in order,
/// with no trimming and no filtering: empty entries are kept.
pub fn split_phones(s: &str) -> (r: Vec<String>)
    ensures
        tokens_view(r@) == split_on(s@, PHONE_SEPARATOR),
{
    let n = s.unicode_len();
    let mut tokens: Vec<String> = Vec::new();
    let mut start: usize = 0;
    let mut i: usize = 0;
    assert(s@.take(0) =~= Seq::<char>::empty());
    assert(tokens_view(tokens@).push(s@.subrange(0, 0)) =~= seq![Seq::<char>::empty()]);
    while i < n
        invariant
            n == s@.len(),
            start <= i <= n,
            split_on(s@.take(i as int), PHONE_SEPARATOR) == tokens_view(tokens@).push(
                s@.subrange(start as int, i as int),
            ),
        decreases n - i,
    {
        let c = s.get_char(i);
        let ghost prefix = s@.take(i + 1);
        assert(prefix.drop_last() =~= s@.take(i as int));
        assert(prefix.last() == c);
        if c == PHONE_SEPARATOR {
            let t = s.substring_char(start, i).to_string();
            let ghost before = tokens@;
            tokens.push(t);
            start = i + 1;
            assert(tokens_view(tokens@) =~= tokens_view(before).push(t@));
            assert(s@.subrange(start as int, i + 1) =~= Seq::<char>::empty());
        } else {
            assert(s@.subrange(start as int, i + 1) =~= s@.subrange(start as int, i as int).push(c));
        }
        i += 1;
    }
    assert(s@.take(n as int) =~= s@);
    let last = s.substring_char(start, n).to_string();
    let ghost before = tokens@;
    tokens.push(last);
    assert(tokens_view(tokens@) =~= tokens_view(before).push(last@));
    tokens
}

} // verus!
