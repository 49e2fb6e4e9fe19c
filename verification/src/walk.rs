//! A pure, finite traversal of a JSON document collecting its leaf
//! objects: objects all of whose values outside the reserved `labels` key
//! are scalars. A diagnostic aid; the caller decides what to do with the
//! collected leaves.

use vstd::prelude::*;
use crate::json::Json;
use crate::json::str_eq;

verus! {

/// A value with nothing nested inside it.
pub open spec fn is_scalar(j: Json) -> bool {
    !(j is Arr) && !(j is Obj)
}

/// An object's fields make it a leaf: every value outside the `labels`
/// key is a scalar.
pub open spec fn is_leaf_fields(fields: Seq<(String, Json)>) -> bool {
    forall|k: int|
        0 <= k < fields.len() && (#[trigger] fields[k]).0@ != "labels"@ ==> is_scalar(fields[k].1)
}

/// The leaf objects under `j`, in traversal order; a leaf object follows
/// whatever its own fields contribute.
pub open spec fn spec_leaves(j: Json) -> Seq<Json>
    decreases j,
{
    match j {
        Json::Arr(items) => spec_leaves_items(items@),
        Json::Obj(fields) => spec_leaves_fields(fields@) + if is_leaf_fields(fields@) {
            seq![j]
        } else {
            Seq::empty()
        },
        _ => Seq::empty(),
    }
}

/// The leaf objects under each array item, in order.
pub open spec fn spec_leaves_items(items: Seq<Json>) -> Seq<Json>
    decreases items,
{
    if items.len() == 0 {
        Seq::empty()
    } else {
        spec_leaves(items[0]) + spec_leaves_items(items.skip(1))
    }
}

/// The leaf objects under each field's value, the reserved `labels` key
/// skipped.
pub open spec fn spec_leaves_fields(fields: Seq<(String, Json)>) -> Seq<Json>
    decreases fields,
{
    if fields.len() == 0 {
        Seq::empty()
    } else if fields[0].0@ == "labels"@ {
        spec_leaves_fields(fields.skip(1))
    } else {
        spec_leaves(fields[0].1) + spec_leaves_fields(fields.skip(1))
    }
}

/// The values a run of borrowed nodes stands for.
pub open spec fn refs_view(r: Seq<&Json>) -> Seq<Json> {
    r.map_values(|x: &Json| *x)
}

/// Collects the leaf objects under `doc`, in traversal order.
pub fn leaf_objects<'a>(doc: &'a Json) -> (r: Vec<&'a Json>)
    ensures
        refs_view(r@) == spec_leaves(*doc),
{
    let mut out: Vec<&'a Json> = Vec::new();
    walk(doc, &mut out);
    proof {
        assert(refs_view(Seq::<&Json>::empty()) =~= Seq::<Json>::empty());
        assert(Seq::<Json>::empty() + spec_leaves(*doc) =~= spec_leaves(*doc));
    }
    out
}

/// Appends the leaf objects under `j` to `out`.
fn walk<'a>(j: &'a Json, out: &mut Vec<&'a Json>)
    ensures
        refs_view(final(out)@) == refs_view(old(out)@) + spec_leaves(*j),
    decreases *j,
{
    match j {
        Json::Arr(items) => {
            let n = items.len();
            let mut i: usize = 0;
            proof {
                assert(items@.skip(0) =~= items@);
            }
            while i < n
                invariant
                    0 <= i <= n,
                    n == items@.len(),
                    *j == Json::Arr(*items),
                    refs_view(out@) + spec_leaves_items(items@.skip(i as int)) == refs_view(
                        old(out)@,
                    ) + spec_leaves(*j),
                decreases n - i,
            {
                proof {
                    assert(items@.skip(i as int)[0] == items@[i as int]);
                    assert(items@.skip(i as int).skip(1) =~= items@.skip(i as int + 1));
                    assert(decreases_to!(*j => j->Arr_0));
                    assert(j->Arr_0 == *items);
                    assert(decreases_to!(*items => items@));
                    assert(decreases_to!(items@ => items@[i as int]));
                }
                walk(&items[i], out);
                proof {
                    assert(refs_view(out@) + spec_leaves_items(items@.skip(i as int + 1)) =~=
                        refs_view(old(out)@) + spec_leaves(*j));
                }
                i = i + 1;
            }
            proof {
                assert(items@.skip(n as int) =~= Seq::<Json>::empty());
                assert(refs_view(out@) + Seq::<Json>::empty() =~= refs_view(out@));
            }
        },
        Json::Obj(fields) => {
            let n = fields.len();
            let mut leaf = true;
            let mut i: usize = 0;
            proof {
                assert(fields@.skip(0) =~= fields@);
            }
            while i < n
                invariant
                    0 <= i <= n,
                    n == fields@.len(),
                    *j == Json::Obj(*fields),
                    refs_view(out@) + spec_leaves_fields(fields@.skip(i as int)) == refs_view(
                        old(out)@,
                    ) + spec_leaves_fields(fields@),
                    leaf <==> forall|k: int|
                        0 <= k < i && (#[trigger] fields@[k]).0@ != "labels"@ ==> is_scalar(
                            fields@[k].1,
                        ),
                decreases n - i,
            {
                proof {
                    assert(fields@.skip(i as int)[0] == fields@[i as int]);
                    assert(fields@.skip(i as int).skip(1) =~= fields@.skip(i as int + 1));
                }
                if !str_eq(fields[i].0.as_str(), "labels") {
                    let scalar: bool = match &fields[i].1 {
                        Json::Arr(_) => false,
                        Json::Obj(_) => false,
                        _ => true,
                    };
                    if !scalar {
                        leaf = false;
                    }
                    proof {
                        assert(decreases_to!(*j => j->Obj_0));
                        assert(j->Obj_0 == *fields);
                        assert(decreases_to!(*fields => fields@));
                        assert(decreases_to!(fields@ => fields@[i as int]));
                        assert(decreases_to!(fields@[i as int] => fields@[i as int].1));
                    }
                    walk(&fields[i].1, out);
                    proof {
                        assert(refs_view(out@) + spec_leaves_fields(fields@.skip(i as int + 1))
                            =~= refs_view(old(out)@) + spec_leaves_fields(fields@));
                    }
                }
                i = i + 1;
            }
            proof {
                assert(fields@.skip(n as int) =~= Seq::<(String, Json)>::empty());
                assert(leaf == is_leaf_fields(fields@));
            }
            if leaf {
                let ghost prev = out@;
                out.push(j);
                proof {
                    assert(refs_view(out@) =~= refs_view(prev).push(*j));
                    assert(spec_leaves(*j) =~= spec_leaves_fields(fields@) + seq![*j]);
                    assert(refs_view(prev) + Seq::<Json>::empty() =~= refs_view(prev));
                    assert(refs_view(out@) =~= refs_view(old(out)@) + spec_leaves(*j));
                }
            } else {
                proof {
                    assert(spec_leaves(*j) =~= spec_leaves_fields(fields@));
                    assert(refs_view(out@) =~= refs_view(old(out)@) + spec_leaves(*j));
                }
            }
        },
        _ => {
            proof {
                assert(spec_leaves(*j) =~= Seq::<Json>::empty());
                assert(refs_view(out@) + Seq::<Json>::empty() =~= refs_view(out@));
            }
        },
    }
}

} // verus!
