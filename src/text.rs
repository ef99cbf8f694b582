use vstd::prelude::*;

verus! {

/// Relies on `String::push`: the character is appended at the end.
pub assume_specification[ String::push ](s: &mut String, ch: char)
    ensures
        final(s)@ == old(s)@.push(ch),
;

/// The text with a backslash written before every double quote; every other
/// character is kept as it is.
pub open spec fn escaped(s: Seq<char>) -> Seq<char>
    decreases s.len(),
{
    if s.len() == 0 {
        seq![]
    } else if s.last() == '"' {
        escaped(s.drop_last()) + seq!['\\', '"']
    } else {
        escaped(s.drop_last()).push(s.last())
    }
}

/// Writes a backslash before every double quote of `text`.
pub fn escape_quotes(text: &str) -> (r: String)
    ensures
        r@ == escaped(text@),
{
    let mut r = String::new();
    for c in it: text.chars()
        invariant
            it.seq() == text@,
            r@ == escaped(text@.take(it.index() as int)),
    {
        proof {
            assert(text@.take(it.index() + 1).drop_last() == text@.take(it.index() as int));
        }
        if c == '"' {
            r.push('\\');
        }
        r.push(c);
    }
    proof {
        assert(text@.take(text@.len() as int) == text@);
    }
    r
}

} // verus!

verus! {

/// The pieces of `s` between its spaces, as `str::split(' ')` gives them:
/// two spaces in a row leave an empty piece, and an empty text is one empty
/// piece.
pub open spec fn space_separated(s: Seq<char>) -> Seq<Seq<char>>
    decreases s.len(),
{
    if s.len() == 0 {
        seq![seq![]]
    } else {
        let p = space_separated(s.drop_last());
        if s.last() == ' ' {
            p.push(seq![])
        } else {
            p.update(p.len() - 1, p.last().push(s.last()))
        }
    }
}

/// Splits `text` at each space.
pub fn split_spaces(text: &str) -> (r: Vec<String>)
    ensures
        r.deep_view() == space_separated(text@),
{
    let mut done: Vec<String> = Vec::new();
    let mut cur = String::new();
    for c in it: text.chars()
        invariant
            it.seq() == text@,
            space_separated(text@.take(it.index() as int)) == done.deep_view().push(cur@),
    {
        let ghost before = done.deep_view().push(cur@);
        proof {
            assert(text@.take(it.index() + 1).drop_last() == text@.take(it.index() as int));
        }
        if c == ' ' {
            let piece = cur;
            done.push(piece);
            cur = String::new();
            assert(done.deep_view().push(cur@) =~= before.push(seq![]));
        } else {
            cur.push(c);
            assert(done.deep_view().push(cur@) =~= before.update(
                before.len() - 1,
                before.last().push(c),
            ));
        }
    }
    proof {
        assert(text@.take(text@.len() as int) == text@);
    }
    done.push(cur);
    assert(done.deep_view() =~= space_separated(text@));
    done
}

} // verus!

verus! {

/// Escaping works piece by piece: the escape of two texts one after the
/// other is the escape of the first followed by the escape of the second.
pub proof fn lemma_escaped_concat(a: Seq<char>, b: Seq<char>)
    ensures
        escaped(a + b) == escaped(a) + escaped(b),
    decreases b.len(),
{
    if b.len() == 0 {
        assert(a + b =~= a);
        assert(escaped(b) =~= Seq::<char>::empty());
        assert(escaped(a) + escaped(b) =~= escaped(a));
    } else {
        lemma_escaped_concat(a, b.drop_last());
        assert((a + b).drop_last() =~= a + b.drop_last());
        assert((a + b).last() == b.last());
        if b.last() == '"' {
            assert(escaped(a) + escaped(b) =~= escaped(a) + escaped(b.drop_last()) + seq!['\\', '"']);
        } else {
            assert(escaped(a) + escaped(b) =~= (escaped(a) + escaped(b.drop_last())).push(b.last()));
        }
    }
}

/// A double quote becomes a backslash and the quote; any other character is
/// kept as it is.
pub proof fn lemma_escaped_char(c: char)
    ensures
        escaped(seq![c]) == (if c == '"' { seq!['\\', '"'] } else { seq![c] }),
{
    assert(seq![c].drop_last() =~= Seq::<char>::empty());
    assert(escaped(Seq::<char>::empty()) =~= Seq::<char>::empty());
    assert(Seq::<char>::empty() + seq!['\\', '"'] =~= seq!['\\', '"']);
    assert(Seq::<char>::empty().push(c) =~= seq![c]);
}

/// A text without double quotes is its own escape.
pub proof fn lemma_escaped_without_quotes(s: Seq<char>)
    requires
        forall|i: int| 0 <= i < s.len() ==> s[i] != '"',
    ensures
        escaped(s) == s,
    decreases s.len(),
{
    if s.len() == 0 {
        assert(escaped(s) =~= s);
    } else {
        lemma_escaped_without_quotes(s.drop_last());
        assert(s.drop_last().push(s.last()) =~= s);
    }
}

} // verus!
