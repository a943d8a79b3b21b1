use vstd::prelude::*;

verus! {

/// The pieces of `s` between single spaces, in order. Consecutive spaces give
/// empty pieces, and there is always one more piece than there are spaces.
pub open spec fn split_at_spaces(s: Seq<char>) -> Seq<Seq<char>>
    decreases s.len(),
{
    if s.len() == 0 {
        seq![Seq::<char>::empty()]
    } else {
        let rest = split_at_spaces(s.drop_last());
        if s.last() == ' ' {
            rest.push(Seq::<char>::empty())
        } else {
            rest.update(rest.len() - 1, rest.last().push(s.last()))
        }
    }
}

/// The pieces concatenated with one space between neighbours.
pub open spec fn join_with_spaces(parts: Seq<Seq<char>>) -> Seq<char>
    decreases parts.len(),
{
    if parts.len() == 0 {
        Seq::<char>::empty()
    } else if parts.len() == 1 {
        parts[0]
    } else {
        join_with_spaces(parts.drop_last()) + seq![' '] + parts.last()
    }
}

/// The views of a vector of strings.
pub open spec fn views_of(v: Seq<String>) -> Seq<Seq<char>> {
    v.map_values(|t: String| t@)
}

/// Relies on String::push: the character is appended at the end.
#[verifier::external_body]
pub(crate) fn push_char(s: &mut String, c: char)
    ensures
        final(s)@ == old(s)@.push(c),
{
    s.push(c);
}

/// Relies on String::push_str: the slice is appended at the end.
#[verifier::external_body]
pub(crate) fn push_text(s: &mut String, t: &str)
    ensures
        final(s)@ == old(s)@ + t@,
{
    s.push_str(t);
}

/// The characters of `message`, in order.
fn chars_of(message: &str) -> (r: Vec<char>)
    ensures
        r@ == message@,
{
    broadcast use vstd::string::axiom_spec_iter;

    let mut out: Vec<char> = Vec::new();
    for c in it: message.chars()
        invariant
            out@ == it.seq().take(it.index() as int),
    {
        out.push(c);
    }
    out
}

/// Splits `message` at every single space; the pieces keep their order and
/// empty pieces are kept.
pub fn split_spaces(message: &str) -> (r: Vec<String>)
    ensures
        views_of(r@) == split_at_spaces(message@),
        r.len() >= 1,
{
    let chars = chars_of(message);
    let mut pieces: Vec<String> = Vec::new();
    let mut cur = String::new();
    let mut i: usize = 0;
    while i < chars.len()
        invariant
            i <= chars.len(),
            chars@ == message@,
            views_of(pieces@).push(cur@) == split_at_spaces(chars@.take(i as int)),
        decreases chars.len() - i,
    {
        let c = chars[i];
        let ghost before = chars@.take(i as int);
        let ghost after = chars@.take(i + 1);
        assert(after.drop_last() =~= before);
        assert(after.last() == c);
        if c == ' ' {
            let done = cur;
            cur = String::new();
            pieces.push(done);
            assert(views_of(pieces@) =~= views_of(pieces@).drop_last().push(done@));
            assert(views_of(pieces@).push(cur@) =~= split_at_spaces(after));
        } else {
            let ghost old_pieces = views_of(pieces@);
            push_char(&mut cur, c);
            assert(views_of(pieces@).push(cur@) =~= old_pieces.push(cur@));
            assert(views_of(pieces@).push(cur@) =~= split_at_spaces(after));
        }
        i = i + 1;
    }
    assert(chars@.take(i as int) =~= message@);
    let ghost old_pieces = views_of(pieces@);
    pieces.push(cur);
    assert(views_of(pieces@) =~= old_pieces.push(cur@));
    pieces
}

} // verus!
