//! Characteristic resolver: finds the vendor control characteristic in a
//! discovered GATT service tree.
//!
//! The tree arrives as plain values: each service is the ordered list of its
//! characteristics' identifier strings, in discovery order. The transport
//! that produced it lives outside this crate.

use crate::text::has_prefix;
use crate::text::starts_with_str;
use vstd::prelude::*;

verus! {

/// One discovered GATT service: the identifiers of its characteristics, in
/// discovery order.
#[derive(Debug, Clone)]
pub struct BleService {
    pub characteristic_ids: Vec<String>,
}

impl View for BleService {
    type V = Seq<Seq<char>>;

    open spec fn view(&self) -> Seq<Seq<char>> {
        self.characteristic_ids.deep_view()
    }
}

/// True of the identifier of the vendor control characteristic: its text
/// starts with "FFE9" (case-sensitive, as the transport formats it).
pub open spec fn is_control_id(id: Seq<char>) -> bool {
    has_prefix(id, "FFE9"@)
}

/// The first control identifier among `ids`, in order, if any.
pub open spec fn first_control_in(ids: Seq<Seq<char>>) -> Option<Seq<char>>
    decreases ids.len(),
{
    if ids.len() == 0 {
        None
    } else if is_control_id(ids.first()) {
        Some(ids.first())
    } else {
        first_control_in(ids.drop_first())
    }
}

/// The control identifier a service tree resolves to: the first matching
/// characteristic of the first service that holds one, if any.
pub open spec fn resolved_control(tree: Seq<Seq<Seq<char>>>) -> Option<Seq<char>>
    decreases tree.len(),
{
    if tree.len() == 0 {
        None
    } else if first_control_in(tree.first()) is Some {
        first_control_in(tree.first())
    } else {
        resolved_control(tree.drop_first())
    }
}

/// The view of a whole service tree: characteristics' identifier texts,
/// grouped by service, both in discovery order.
pub open spec fn tree_view(services: Seq<BleService>) -> Seq<Seq<Seq<char>>> {
    services.map_values(|s: BleService| s@)
}

/// Scans the tree in discovery order and returns the identifier of the
/// first characteristic whose text starts with "FFE9"; later services and
/// characteristics are not inspected. Returns `None` when no identifier
/// matches.
pub fn resolve_control_characteristic(services: &Vec<BleService>) -> (r: Option<String>)
    ensures
        match r {
            Some(id) => resolved_control(tree_view(services@)) == Some(id@),
            None => resolved_control(tree_view(services@)) is None,
        },
{
    let ghost tv = tree_view(services@);
    proof {
        assert(tv.len() == services@.len());
    }
    let mut i: usize = 0;
    while i < services.len()
        invariant
            tv == tree_view(services@),
            tv.len() == services@.len(),
            i <= services@.len(),
            resolved_control(tv.take(i as int)) is None,
        decreases services@.len() - i,
    {
        let ids = &services[i].characteristic_ids;
        let mut j: usize = 0;
        while j < ids.len()
            invariant
                tv == tree_view(services@),
                tv.len() == services@.len(),
                resolved_control(tv.take(i as int)) is None,
                ids@ == services@[i as int].characteristic_ids@,
                i < services@.len(),
                j <= ids@.len(),
                first_control_in(services@[i as int]@.take(j as int)) is None,
            decreases ids@.len() - j,
        {
            let id: &String = &ids[j];
            proof {
                assert(services@[i as int]@[j as int] == ids@[j as int]@);
                assert(tv[i as int] == services@[i as int]@);
            }
            if starts_with_str(id.as_str(), "FFE9") {
                proof {
                    lemma_first_control_found(services@[i as int]@, j as int);
                    lemma_resolved_control_found(tv, i as int, id@);
                }
                return Some(id.clone());
            }
            proof {
                lemma_first_control_step(services@[i as int]@, j as int);
            }
            j = j + 1;
        }
        proof {
            assert(services@[i as int]@.take(ids@.len() as int) =~~= services@[i as int]@);
            assert(tv[i as int] == services@[i as int]@);
            lemma_resolved_control_step(tv, i as int);
        }
        i = i + 1;
    }
    proof {
        assert(tv.take(services@.len() as int) =~~= tv);
    }
    None
}

/// After `j` non-matching identifiers, a match at position `j` makes the
/// identifier at `j` the first control identifier of the list.
proof fn lemma_first_control_found(ids: Seq<Seq<char>>, j: int)
    requires
        0 <= j < ids.len(),
        first_control_in(ids.take(j)) is None,
        is_control_id(ids[j]),
    ensures
        first_control_in(ids) == Some(ids[j]),
    decreases j,
{
    if j == 0 {
        assert(is_control_id(ids.first()));
    } else {
        assert(ids.take(j).first() == ids.first());
        assert(ids.take(j).drop_first() =~~= ids.drop_first().take(j - 1));
        lemma_first_control_found(ids.drop_first(), j - 1);
    }
}

/// A non-match at position `j` extends a matchless prefix by one.
proof fn lemma_first_control_step(ids: Seq<Seq<char>>, j: int)
    requires
        0 <= j < ids.len(),
        first_control_in(ids.take(j)) is None,
        !is_control_id(ids[j]),
    ensures
        first_control_in(ids.take(j + 1)) is None,
    decreases j,
{
    if j == 0 {
        assert(ids.take(1).first() == ids[0]);
        assert(ids.take(1).drop_first() =~~= Seq::<Seq<char>>::empty());
    } else {
        assert(ids.take(j).first() == ids.first());
        assert(ids.take(j).drop_first() =~~= ids.drop_first().take(j - 1));
        assert(ids.take(j + 1).first() == ids.first());
        assert(ids.take(j + 1).drop_first() =~~= ids.drop_first().take(j));
        lemma_first_control_step(ids.drop_first(), j - 1);
    }
}

/// A service with a first control identifier, after services without one,
/// settles what the whole tree resolves to.
proof fn lemma_resolved_control_found(tree: Seq<Seq<Seq<char>>>, i: int, id: Seq<char>)
    requires
        0 <= i < tree.len(),
        resolved_control(tree.take(i)) is None,
        first_control_in(tree[i]) == Some(id),
    ensures
        resolved_control(tree) == Some(id),
    decreases i,
{
    if i == 0 {
        assert(tree.first() == tree[0]);
    } else {
        assert(tree.take(i).first() == tree.first());
        assert(tree.take(i).drop_first() =~~= tree.drop_first().take(i - 1));
        lemma_resolved_control_found(tree.drop_first(), i - 1, id);
    }
}

/// A service without a control identifier extends a matchless prefix of the
/// tree by one.
proof fn lemma_resolved_control_step(tree: Seq<Seq<Seq<char>>>, i: int)
    requires
        0 <= i < tree.len(),
        resolved_control(tree.take(i)) is None,
        first_control_in(tree[i]) is None,
    ensures
        resolved_control(tree.take(i + 1)) is None,
    decreases i,
{
    if i == 0 {
        assert(tree.take(1).first() == tree[0]);
        assert(tree.take(1).drop_first() =~~= Seq::<Seq<Seq<char>>>::empty());
    } else {
        assert(tree.take(i).first() == tree.first());
        assert(tree.take(i).drop_first() =~~= tree.drop_first().take(i - 1));
        assert(tree.take(i + 1).first() == tree.first());
        assert(tree.take(i + 1).drop_first() =~~= tree.drop_first().take(i));
        lemma_resolved_control_step(tree.drop_first(), i - 1);
    }
}

/// Law: a tree in which no characteristic identifier starts with "FFE9"
/// resolves to nothing.
pub proof fn lemma_no_match_resolves_none(tree: Seq<Seq<Seq<char>>>)
    requires
        forall|i: int, j: int|
            0 <= i < tree.len() && 0 <= j < tree[i].len() ==> !is_control_id(#[trigger] tree[i][j]),
    ensures
        resolved_control(tree) is None,
    decreases tree.len(),
{
    if tree.len() > 0 {
        lemma_all_unmatched_first_none(tree.first());
        assert(forall|i: int, j: int|
            0 <= i < tree.drop_first().len() && 0 <= j < tree.drop_first()[i].len()
                ==> !is_control_id(#[trigger] tree.drop_first()[i][j]));
        lemma_no_match_resolves_none(tree.drop_first());
    }
}

/// A list of identifiers none of which is a control identifier has no first
/// control identifier.
proof fn lemma_all_unmatched_first_none(ids: Seq<Seq<char>>)
    requires
        forall|j: int| 0 <= j < ids.len() ==> !is_control_id(#[trigger] ids[j]),
    ensures
        first_control_in(ids) is None,
    decreases ids.len(),
{
    if ids.len() > 0 {
        lemma_all_unmatched_first_none(ids.drop_first());
    }
}

} // verus!
