//! Keys of factor levels.
//!
//! A level is an ordered list of factor names with one value for each. Its
//! key is the text `name1:value1_name2:value2_..._nameN:valueN`; a level
//! without factors has the empty key.

use crate::search::{matches_at, occurs_in};
use crate::text::{joined, lemma_joined_front};
use vstd::prelude::*;

verus! {

/// The text `name:value` that one factor contributes to a key.
pub open spec fn pair_text(name: Seq<char>, value: Seq<char>) -> Seq<char> {
    name + seq![':'] + value
}

/// The `name:value` texts of a level, one for each name, in order.
pub open spec fn pairs(names: Seq<Seq<char>>, values: Seq<Seq<char>>) -> Seq<Seq<char>> {
    Seq::new(names.len(), |i: int| pair_text(names[i], values[i]))
}

/// The key of the level with these names and values.
pub open spec fn key_of(names: Seq<Seq<char>>, values: Seq<Seq<char>>) -> Seq<char> {
    joined(pairs(names, values), seq!['_'])
}

/// The text that opens every factor of a key but the first: `_name:`.
pub open spec fn opening(name: Seq<char>) -> Seq<char> {
    seq!['_'] + name + seq![':']
}

/// What follows the first factor's text in a key.
spec fn after_first(parts: Seq<Seq<char>>) -> Seq<char> {
    if parts.len() <= 1 {
        Seq::empty()
    } else {
        seq!['_'] + joined(parts.drop_first(), seq!['_'])
    }
}

proof fn lemma_key_splits(names: Seq<Seq<char>>, values: Seq<Seq<char>>)
    requires
        names.len() >= 1,
    ensures
        key_of(names, values) == names[0] + seq![':'] + (values[0] + after_first(
            pairs(names, values),
        )),
{
    let parts = pairs(names, values);
    if parts.len() >= 2 {
        lemma_joined_front(parts, seq!['_']);
    }
    assert(key_of(names, values) =~= names[0] + seq![':'] + (values[0] + after_first(parts)));
}

proof fn lemma_rest_opens(names: Seq<Seq<char>>, values: Seq<Seq<char>>)
    requires
        names.len() >= 2,
        values.len() == names.len(),
    ensures
        after_first(pairs(names, values)) == opening(names[1]) + (values[1] + after_first(
            pairs(names.drop_first(), values.drop_first()),
        )),
{
    lemma_key_splits(names.drop_first(), values.drop_first());
    assert(pairs(names, values).drop_first() =~= pairs(names.drop_first(), values.drop_first()));
    assert(after_first(pairs(names, values)) =~= opening(names[1]) + (values[1] + after_first(
        pairs(names.drop_first(), values.drop_first()),
    )));
}

/// Whether `longer` cannot be longer than `shorter` where the two, each
/// followed by the opening of the factor `name` and some further text, make
/// the same text.
spec fn no_overrun(shorter: Seq<char>, longer: Seq<char>, name: Seq<char>) -> bool {
    forall|tail1: Seq<char>, tail2: Seq<char>|
        shorter + (#[trigger] (opening(name) + tail1)) == longer + (#[trigger] (opening(name)
            + tail2)) ==> longer.len() <= shorter.len()
}

/// A value without an underscore is not outrun: the underscore of the
/// opening would stand in it.
proof fn lemma_no_overrun_of_plain(shorter: Seq<char>, longer: Seq<char>, name: Seq<char>)
    requires
        !longer.contains('_'),
    ensures
        no_overrun(shorter, longer, name),
{
    assert forall|tail1: Seq<char>, tail2: Seq<char>|
        shorter + (#[trigger] (opening(name) + tail1)) == longer + (#[trigger] (opening(name)
            + tail2)) implies longer.len() <= shorter.len() by {
        let a = shorter + (opening(name) + tail1);
        let b = longer + (opening(name) + tail2);
        let l1 = shorter.len() as int;
        if l1 < longer.len() {
            assert(a[l1] == '_');
            assert(b[l1] == longer[l1]);
            assert(longer.contains('_'));
        }
    }
}

/// A value in which the opening does not stand is not outrun, where the
/// name holds no colon: the opening would stand in the value, or its colon
/// would fall on a place of the name.
proof fn lemma_no_overrun_of_unopened(shorter: Seq<char>, longer: Seq<char>, name: Seq<char>)
    requires
        !name.contains(':'),
        !occurs_in(longer, opening(name)),
    ensures
        no_overrun(shorter, longer, name),
{
    let open = opening(name);
    assert forall|tail1: Seq<char>, tail2: Seq<char>|
        shorter + (#[trigger] (opening(name) + tail1)) == longer + (#[trigger] (opening(name)
            + tail2)) implies longer.len() <= shorter.len() by {
        let a = shorter + (open + tail1);
        let b = longer + (open + tail2);
        let l1 = shorter.len() as int;
        let l2 = longer.len() as int;
        let m = open.len() as int;
        if l1 < l2 {
            if l2 - l1 >= m {
                assert forall|j: int| 0 <= j < m implies longer[l1 + j] == open[j] by {
                    assert(b[l1 + j] == longer[l1 + j]);
                    assert(a[l1 + j] == open[j]);
                }
                assert(longer.subrange(l1, l1 + m) =~= open);
                assert(matches_at(longer, open, l1));
            } else {
                let k = l1 + m - 1;
                let j = m - 1 - (l2 - l1);
                assert(a[k] == open[m - 1]);
                assert(open[m - 1] == ':');
                assert(b[k] == open[j]);
                if j > 0 {
                    assert(open[j] == name[j - 1]);
                    assert(name.contains(name[j - 1]));
                }
            }
            assert(false);
        }
    }
}

proof fn lemma_key_injective_stepwise(
    names: Seq<Seq<char>>,
    values1: Seq<Seq<char>>,
    values2: Seq<Seq<char>>,
)
    requires
        values1.len() == names.len(),
        values2.len() == names.len(),
        forall|i: int|
            0 <= i < names.len() - 1 ==> no_overrun(#[trigger] values1[i], values2[i], names[i + 1])
                && no_overrun(values2[i], values1[i], names[i + 1]),
    ensures
        key_of(names, values1) == key_of(names, values2) ==> values1 == values2,
    decreases names.len(),
{
    if key_of(names, values1) != key_of(names, values2) {
    } else if names.len() == 0 {
        assert(values1 =~= values2);
    } else {
        let n = names.len();
        let head = names[0] + seq![':'];
        let rest1 = after_first(pairs(names, values1));
        let rest2 = after_first(pairs(names, values2));
        let a = values1[0] + rest1;
        let b = values2[0] + rest2;
        lemma_key_splits(names, values1);
        lemma_key_splits(names, values2);
        assert(a =~= (head + a).skip(head.len() as int));
        assert(b =~= (head + b).skip(head.len() as int));
        assert(a == b);
        let l = values1[0].len() as int;
        if n == 1 {
            assert(a.len() == l);
            assert(b.len() == values2[0].len());
            assert(values1[0] =~= a.take(l));
            assert(values2[0] =~= b.take(l));
            assert(values1 =~= values2);
        } else {
            let names_after = names.drop_first();
            let after1 = values1.drop_first();
            let after2 = values2.drop_first();
            let tail1 = values1[1] + after_first(pairs(names_after, after1));
            let tail2 = values2[1] + after_first(pairs(names_after, after2));
            lemma_rest_opens(names, values1);
            lemma_rest_opens(names, values2);
            assert(no_overrun(values1[0], values2[0], names[1]));
            assert(a == values1[0] + (opening(names[1]) + tail1));
            assert(b == values2[0] + (opening(names[1]) + tail2));
            assert(values2[0].len() == l);
            assert(values1[0] =~= a.take(l));
            assert(values2[0] =~= b.take(l));
            assert(rest1 =~= a.skip(l));
            assert(rest2 =~= b.skip(l));
            let sep = seq!['_'];
            let joined1 = joined(pairs(names, values1).drop_first(), sep);
            let joined2 = joined(pairs(names, values2).drop_first(), sep);
            assert(joined1 =~= (sep + joined1).skip(1));
            assert(joined2 =~= (sep + joined2).skip(1));
            assert(pairs(names, values1).drop_first() =~= pairs(names_after, after1));
            assert(pairs(names, values2).drop_first() =~= pairs(names_after, after2));
            assert forall|i: int| 0 <= i < names_after.len() - 1 implies no_overrun(
                #[trigger] after1[i],
                after2[i],
                names_after[i + 1],
            ) && no_overrun(after2[i], after1[i], names_after[i + 1]) by {
                assert(after1[i] == values1[i + 1]);
                assert(after2[i] == values2[i + 1]);
                assert(names_after[i + 1] == names[i + 2]);
            }
            lemma_key_injective_stepwise(names_after, after1, after2);
            assert forall|i: int| 0 <= i < n implies values1[i] == values2[i] by {
                if i > 0 {
                    assert(values1[i] == after1[i - 1]);
                    assert(values2[i] == after2[i - 1]);
                }
            }
            assert(values1 =~= values2);
        }
    }
}

/// Two levels of the same factors have the same key only if they have the
/// same values, as long as no value but the last holds an underscore.
///
/// Without a condition the law fails: the text `_name:` inside a value
/// reads like the start of the next factor.
pub proof fn lemma_key_injective(
    names: Seq<Seq<char>>,
    values1: Seq<Seq<char>>,
    values2: Seq<Seq<char>>,
)
    requires
        values1.len() == names.len(),
        values2.len() == names.len(),
        forall|i: int|
            0 <= i < names.len() - 1 ==> !values1[i].contains('_') && !values2[i].contains('_'),
    ensures
        key_of(names, values1) == key_of(names, values2) ==> values1 == values2,
{
    assert forall|i: int| 0 <= i < names.len() - 1 implies no_overrun(
        #[trigger] values1[i],
        values2[i],
        names[i + 1],
    ) && no_overrun(values2[i], values1[i], names[i + 1]) by {
        lemma_no_overrun_of_plain(values1[i], values2[i], names[i + 1]);
        lemma_no_overrun_of_plain(values2[i], values1[i], names[i + 1]);
    }
    lemma_key_injective_stepwise(names, values1, values2);
}

/// Two levels of the same factors have the same key only if they have the
/// same values, as long as no name but the first holds a colon and no value
/// but the last holds the opening `_name:` of the factor that follows it.
pub proof fn lemma_key_injective_by_openings(
    names: Seq<Seq<char>>,
    values1: Seq<Seq<char>>,
    values2: Seq<Seq<char>>,
)
    requires
        values1.len() == names.len(),
        values2.len() == names.len(),
        forall|i: int| 1 <= i < names.len() ==> !(#[trigger] names[i]).contains(':'),
        forall|i: int|
            0 <= i < names.len() - 1 ==> !occurs_in(#[trigger] values1[i], opening(names[i + 1])),
        forall|i: int|
            0 <= i < names.len() - 1 ==> !occurs_in(#[trigger] values2[i], opening(names[i + 1])),
    ensures
        key_of(names, values1) == key_of(names, values2) ==> values1 == values2,
{
    assert forall|i: int| 0 <= i < names.len() - 1 implies no_overrun(
        #[trigger] values1[i],
        values2[i],
        names[i + 1],
    ) && no_overrun(values2[i], values1[i], names[i + 1]) by {
        lemma_no_overrun_of_unopened(values1[i], values2[i], names[i + 1]);
        lemma_no_overrun_of_unopened(values2[i], values1[i], names[i + 1]);
    }
    lemma_key_injective_stepwise(names, values1, values2);
}

} // verus!
