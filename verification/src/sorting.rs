//! Sorting the functions of a document by name.
//!
//! The sort is stable: functions of one name keep the order they came in. To
//! say so without speaking of positions, the functions of each name are taken
//! as a sequence of their own, and sorting leaves each such sequence as it
//! was. Together with the order of the names this fixes the result.

use crate::abi::AbiFunction;
use crate::text::{
    lemma_text_le_antisymmetric, lemma_text_le_total, lemma_text_le_transitive, str_le, text_le,
};
use vstd::prelude::*;

verus! {

/// The names of the functions never go down.
pub open spec fn names_ascending(functions: Seq<AbiFunction>) -> bool {
    forall|i: int, j: int|
        0 <= i < j < functions.len() ==> text_le(
            (#[trigger] functions[i]).name@,
            (#[trigger] functions[j]).name@,
        )
}

/// The functions with the given name, in the order they have in `functions`.
pub open spec fn named(functions: Seq<AbiFunction>, name: Seq<char>) -> Seq<AbiFunction> {
    functions.filter(|f: AbiFunction| f.name@ == name)
}

/// `sorted` holds the functions of `functions`, ordered by name, those of one
/// name in the order they had.
pub open spec fn is_sorted_by_name(sorted: Seq<AbiFunction>, functions: Seq<AbiFunction>) -> bool {
    &&& names_ascending(sorted)
    &&& forall|name: Seq<char>| #[trigger] named(sorted, name) == named(functions, name)
}

/// The functions of a name in two sequences put together are those of the
/// first followed by those of the second.
pub proof fn lemma_named_add(a: Seq<AbiFunction>, b: Seq<AbiFunction>, name: Seq<char>)
    ensures
        named(a + b, name) == named(a, name) + named(b, name),
{
    Seq::filter_distributes_over_add(a, b, |f: AbiFunction| f.name@ == name);
}

/// Of a single function, the functions of a name are that function or none.
pub proof fn lemma_named_one(f: AbiFunction, name: Seq<char>)
    ensures
        named(seq![f], name) == if f.name@ == name {
            seq![f]
        } else {
            Seq::<AbiFunction>::empty()
        },
{
    reveal_with_fuel(Seq::filter, 2);
    let one = seq![f];
    assert(one.drop_last() =~= Seq::<AbiFunction>::empty());
    assert(one.last() == f);
    if f.name@ == name {
        assert(named(one, name) =~= seq![f]);
    } else {
        assert(named(one, name) =~= Seq::<AbiFunction>::empty());
    }
}

/// Where no function has the name, the functions of that name are none.
pub proof fn lemma_named_none(functions: Seq<AbiFunction>, name: Seq<char>)
    requires
        forall|k: int| 0 <= k < functions.len() ==> (#[trigger] functions[k]).name@ != name,
    ensures
        named(functions, name) == Seq::<AbiFunction>::empty(),
    decreases functions.len(),
{
    reveal(Seq::filter);
    if functions.len() > 0 {
        lemma_named_none(functions.drop_last(), name);
    }
}

/// A sorted sequence stays a sort of what it held and one more function when
/// that function goes in behind every function whose name does not come
/// after its own.
pub proof fn lemma_insert_sorted(
    sorted: Seq<AbiFunction>,
    functions: Seq<AbiFunction>,
    f: AbiFunction,
    at: int,
)
    requires
        is_sorted_by_name(sorted, functions),
        0 <= at <= sorted.len(),
        forall|k: int| 0 <= k < at ==> text_le((#[trigger] sorted[k]).name@, f.name@),
        at < sorted.len() ==> !text_le(sorted[at].name@, f.name@),
    ensures
        is_sorted_by_name(sorted.insert(at, f), functions.push(f)),
{
    let longer = sorted.insert(at, f);
    assert forall|k: int| at <= k < sorted.len() implies text_le(
        f.name@,
        (#[trigger] sorted[k]).name@,
    ) && sorted[k].name@ != f.name@ by {
        lemma_text_le_total(sorted[at].name@, f.name@);
        if k > at {
            lemma_text_le_transitive(f.name@, sorted[at].name@, sorted[k].name@);
        }
        if sorted[k].name@ == f.name@ {
            if k > at {
                lemma_text_le_antisymmetric(f.name@, sorted[at].name@);
            }
        }
    }
    assert forall|i: int, j: int| 0 <= i < j < longer.len() implies text_le(
        (#[trigger] longer[i]).name@,
        (#[trigger] longer[j]).name@,
    ) by {
        if i < at && j > at {
            assert(longer[i] == sorted[i]);
            assert(longer[j] == sorted[j - 1]);
            if i < j - 1 {
            } else {
                lemma_text_le_transitive(sorted[i].name@, f.name@, sorted[j - 1].name@);
            }
        } else if i == at {
            assert(longer[j] == sorted[j - 1]);
        } else if j == at {
            assert(longer[i] == sorted[i]);
        } else if j < at {
            assert(longer[i] == sorted[i]);
            assert(longer[j] == sorted[j]);
        } else {
            assert(longer[i] == sorted[i - 1]);
            assert(longer[j] == sorted[j - 1]);
        }
    }
    assert forall|name: Seq<char>| #[trigger]
        named(longer, name) == named(functions.push(f), name) by {
        let head = sorted.take(at);
        let tail = sorted.skip(at);
        assert(sorted =~= head + tail);
        assert(longer =~= head + seq![f] + tail);
        assert(functions.push(f) =~= functions + seq![f]);
        lemma_named_add(head, tail, name);
        lemma_named_add(head + seq![f], tail, name);
        lemma_named_add(head, seq![f], name);
        lemma_named_add(functions, seq![f], name);
        lemma_named_one(f, name);
        assert(named(sorted, name) == named(functions, name));
        if f.name@ == name {
            assert forall|k: int| 0 <= k < tail.len() implies (#[trigger] tail[k]).name@
                != name by {
                assert(tail[k] == sorted[at + k]);
            }
            lemma_named_none(tail, name);
            assert(named(sorted, name) =~= named(head, name));
            assert(named(longer, name) =~= named(head, name) + seq![f]);
        } else {
            assert(named(longer, name) =~= named(head, name) + named(tail, name));
        }
    }
}

/// The functions of a name in a sequence, by its last function: that
/// function comes last among them if it has the name, and is not among them
/// if it has not.
pub proof fn lemma_named_last(functions: Seq<AbiFunction>, name: Seq<char>)
    requires
        functions.len() > 0,
    ensures
        named(functions, name) == if functions.last().name@ == name {
            named(functions.drop_last(), name).push(functions.last())
        } else {
            named(functions.drop_last(), name)
        },
{
    reveal(Seq::filter);
}

/// A function is in a sequence exactly when it is among the functions of
/// its own name there.
pub proof fn lemma_named_members(functions: Seq<AbiFunction>, f: AbiFunction)
    ensures
        functions.contains(f) <==> named(functions, f.name@).contains(f),
{
    let pred = |g: AbiFunction| g.name@ == f.name@;
    if functions.contains(f) {
        let k = choose|k: int| 0 <= k < functions.len() && functions[k] == f;
        functions.lemma_filter_contains(pred, k);
    }
    if named(functions, f.name@).contains(f) {
        functions.lemma_filter_contains_rev(pred, f);
    }
}

proof fn lemma_last_name_is_greatest(a: Seq<AbiFunction>, b: Seq<AbiFunction>)
    requires
        names_ascending(b),
        a.len() > 0,
        b.len() > 0,
        forall|name: Seq<char>| #[trigger] named(a, name) == named(b, name),
    ensures
        text_le(a.last().name@, b.last().name@),
{
    let x = a.last();
    assert(a[a.len() - 1] == x);
    assert(a.contains(x));
    lemma_named_members(a, x);
    assert(named(a, x.name@) == named(b, x.name@));
    lemma_named_members(b, x);
    let k = choose|k: int| 0 <= k < b.len() && b[k] == x;
    if k < b.len() - 1 {
        assert(text_le(b[k].name@, b[b.len() - 1].name@));
    } else {
        crate::text::lemma_text_le_reflexive(x.name@);
    }
}

proof fn lemma_same_named_same(a: Seq<AbiFunction>, b: Seq<AbiFunction>)
    requires
        names_ascending(a),
        names_ascending(b),
        forall|name: Seq<char>| #[trigger] named(a, name) == named(b, name),
    ensures
        a == b,
    decreases a.len(),
{
    if a.len() == 0 {
        if b.len() > 0 {
            assert(b.contains(b[0]));
            lemma_named_members(b, b[0]);
            assert(named(a, b[0].name@) == named(b, b[0].name@));
            lemma_named_members(a, b[0]);
        }
        assert(a =~= b);
    } else {
        let x = a.last();
        assert(a[a.len() - 1] == x);
        assert(a.contains(x));
        lemma_named_members(a, x);
        assert(named(a, x.name@) == named(b, x.name@));
        lemma_named_members(b, x);
        assert(b.len() > 0);
        let y = b.last();
        lemma_last_name_is_greatest(a, b);
        lemma_last_name_is_greatest(b, a);
        lemma_text_le_antisymmetric(x.name@, y.name@);
        let shorter_a = a.drop_last();
        let shorter_b = b.drop_last();
        assert forall|name: Seq<char>| #[trigger]
            named(shorter_a, name) == named(shorter_b, name) by {
            lemma_named_last(a, name);
            lemma_named_last(b, name);
            assert(named(a, name) == named(b, name));
            if name == x.name@ {
                let left = named(shorter_a, name).push(x);
                let right = named(shorter_b, name).push(y);
                assert(left == right);
                assert(left.drop_last() =~= named(shorter_a, name));
                assert(right.drop_last() =~= named(shorter_b, name));
            }
        }
        assert(x == y) by {
            lemma_named_last(a, x.name@);
            lemma_named_last(b, x.name@);
            let left = named(shorter_a, x.name@).push(x);
            let right = named(shorter_b, x.name@).push(y);
            assert(left == right);
            assert(left.last() == x);
            assert(right.last() == y);
        }
        assert(names_ascending(shorter_a)) by {
            assert forall|i: int, j: int| 0 <= i < j < shorter_a.len() implies text_le(
                (#[trigger] shorter_a[i]).name@,
                (#[trigger] shorter_a[j]).name@,
            ) by {
                assert(shorter_a[i] == a[i] && shorter_a[j] == a[j]);
            }
        }
        assert(names_ascending(shorter_b)) by {
            assert forall|i: int, j: int| 0 <= i < j < shorter_b.len() implies text_le(
                (#[trigger] shorter_b[i]).name@,
                (#[trigger] shorter_b[j]).name@,
            ) by {
                assert(shorter_b[i] == b[i] && shorter_b[j] == b[j]);
            }
        }
        lemma_same_named_same(shorter_a, shorter_b);
        assert(a =~= shorter_a.push(x));
        assert(b =~= shorter_b.push(y));
    }
}

/// Sorting by name has one result: two sequences that are both a sort of the
/// same functions are the same sequence.
pub proof fn lemma_sorted_is_unique(
    a: Seq<AbiFunction>,
    b: Seq<AbiFunction>,
    functions: Seq<AbiFunction>,
)
    requires
        is_sorted_by_name(a, functions),
        is_sorted_by_name(b, functions),
    ensures
        a == b,
{
    assert forall|name: Seq<char>| #[trigger] named(a, name) == named(b, name) by {
        assert(named(a, name) == named(functions, name));
        assert(named(b, name) == named(functions, name));
    }
    lemma_same_named_same(a, b);
}

/// Sorting keeps every function and adds none.
pub proof fn lemma_sorted_keeps_functions(
    sorted: Seq<AbiFunction>,
    functions: Seq<AbiFunction>,
    f: AbiFunction,
)
    requires
        is_sorted_by_name(sorted, functions),
    ensures
        sorted.contains(f) <==> functions.contains(f),
{
    lemma_named_members(sorted, f);
    lemma_named_members(functions, f);
    assert(named(sorted, f.name@) == named(functions, f.name@));
}

/// Sorts functions by name. Names are ordered as Rust orders strings, byte
/// by byte. Functions of one name keep the order they came in.
pub fn sort_by_name(functions: Vec<AbiFunction>) -> (sorted: Vec<AbiFunction>)
    ensures
        is_sorted_by_name(sorted@, functions@),
        sorted@.len() == functions@.len(),
{
    let mut sorted: Vec<AbiFunction> = Vec::new();
    assert(sorted@ =~= functions@.take(0));
    for f in it: functions
        invariant
            is_sorted_by_name(sorted@, functions@.take(it.index() as int)),
            sorted@.len() == it.index(),
    {
        let ghost done = functions@.take(it.index() as int);
        let mut at: usize = 0;
        while at < sorted.len() && str_le(sorted[at].name.as_str(), f.name.as_str())
            invariant
                at <= sorted@.len(),
                forall|k: int| 0 <= k < at ==> text_le((#[trigger] sorted@[k]).name@, f.name@),
            decreases sorted@.len() - at,
        {
            at += 1;
        }
        proof {
            lemma_insert_sorted(sorted@, done, f, at as int);
            assert(done.push(f) =~= functions@.take(it.index() as int + 1));
        }
        sorted.insert(at, f);
    }
    assert(functions@.take(functions@.len() as int) =~= functions@);
    sorted
}

} // verus!
