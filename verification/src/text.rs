use vstd::prelude::*;
use vstd::string::*;

verus! {

/// The items of `items`, in order, with `sep` between each two neighbours.
pub open spec fn join(items: Seq<Seq<char>>, sep: Seq<char>) -> Seq<char>
    decreases items.len(),
{
    if items.len() == 0 {
        Seq::empty()
    } else if items.len() == 1 {
        items[0]
    } else {
        join(items.drop_last(), sep) + sep + items.last()
    }
}

/// `n` copies of one item.
pub open spec fn copies(item: Seq<char>, n: nat) -> Seq<Seq<char>> {
    Seq::new(n, |i: int| item)
}

/// Joining one item more: the separator comes before every item but the
/// first.
pub proof fn lemma_join_push(items: Seq<Seq<char>>, item: Seq<char>, sep: Seq<char>)
    ensures
        join(items.push(item), sep) == if items.len() == 0 {
            item
        } else {
            join(items, sep) + sep + item
        },
{
    assert(items.push(item).drop_last() =~= items);
}

/// Joining two lists one after the other: the separator stands between
/// the two joined parts where neither list is empty.
pub proof fn lemma_join_concat(a: Seq<Seq<char>>, b: Seq<Seq<char>>, sep: Seq<char>)
    ensures
        join(a + b, sep) == if a.len() == 0 {
            join(b, sep)
        } else if b.len() == 0 {
            join(a, sep)
        } else {
            join(a, sep) + sep + join(b, sep)
        },
    decreases b.len(),
{
    if a.len() == 0 {
        assert(a + b =~= b);
    } else if b.len() == 0 {
        assert(a + b =~= a);
    } else {
        assert((a + b).drop_last() =~= a + b.drop_last());
        lemma_join_concat(a, b.drop_last(), sep);
        if b.len() > 1 {
            assert((join(a, sep) + sep + join(b.drop_last(), sep)) + sep + b.last() =~= join(a, sep)
                + sep + (join(b.drop_last(), sep) + sep + b.last()));
        }
    }
}

/// The place of one item in a joined list: after the items before it and
/// before the items after it, with the separator on each side where there
/// is a neighbour.
pub open spec fn joined_around(items: Seq<Seq<char>>, i: int, sep: Seq<char>) -> Seq<char> {
    let before = if i == 0 {
        Seq::empty()
    } else {
        join(items.take(i), sep) + sep
    };
    let after = if i == items.len() - 1 {
        Seq::empty()
    } else {
        sep + join(items.skip(i + 1), sep)
    };
    before + items[i] + after
}

/// A joined list, read around any one of its items.
pub proof fn lemma_join_around(items: Seq<Seq<char>>, i: int, sep: Seq<char>)
    requires
        0 <= i < items.len(),
    ensures
        join(items, sep) == joined_around(items, i, sep),
{
    let head = items.take(i);
    let one = seq![items[i]];
    let tail = items.skip(i + 1);
    assert(items =~= (head + one) + tail);
    lemma_join_concat(head, one, sep);
    lemma_join_concat(head + one, tail, sep);
    assert(join(items, sep) =~= joined_around(items, i, sep));
}

/// Appends `item` to `out` as the next item of a joined list that has
/// `count` items already.
pub(crate) fn push_joined(
    out: &mut String,
    count: usize,
    item: &str,
    sep: &str,
    Ghost(items): Ghost<Seq<Seq<char>>>,
)
    requires
        items.len() == count,
        old(out)@ == join(items, sep@),
    ensures
        final(out)@ == join(items.push(item@), sep@),
{
    proof {
        lemma_join_push(items, item@, sep@);
    }
    if count > 0 {
        out.append(sep);
    }
    out.append(item);
}

} // verus!
