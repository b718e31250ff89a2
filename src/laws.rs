//! Properties of the reconciliation that hold for every recorded list and every scan.

use vstd::prelude::*;
use crate::paste::ClipboardItemView;
use crate::reconcile::{
    appended, candidate_ids, ids_of, label_id, matching, merge_spec, new_signature, proposed_type,
    update_type, updated_signature,
};
use crate::signature::{SignatureIdView, SignatureTypeView, SignatureView};
use crate::text::lemma_first_index_of;

verus! {

/// Whether two classifications are the same kind of site.
pub open spec fn same_site_kind(a: SignatureTypeView, b: SignatureTypeView) -> bool {
    ||| a is Combat && b is Combat
    ||| a is Ore && b is Ore
    ||| a is Data && b is Data
    ||| a is Relic && b is Relic
    ||| a is Gas && b is Gas
}

proof fn lemma_update_twice(e: SignatureTypeView, p: SignatureTypeView)
    ensures
        update_type(update_type(e, p), p) == update_type(e, p),
{
}

proof fn lemma_appended_members(known: Seq<SignatureIdView>, c: Seq<ClipboardItemView>)
    ensures
        forall|t: int|
            0 <= t < appended(known, c).len() ==> exists|j: int|
                0 <= j < c.len() && !known.contains(label_id(c[j].id)) && #[trigger] appended(
                    known,
                    c,
                )[t] == new_signature(#[trigger] c[j]),
    decreases c.len(),
{
    if c.len() > 0 {
        let d = c.drop_last();
        lemma_appended_members(known, d);
        let a = appended(known, c);
        assert forall|t: int| #![trigger a[t]] 0 <= t < a.len() implies exists|j: int|
            0 <= j < c.len() && !known.contains(label_id(c[j].id)) && a[t] == new_signature(
                #[trigger] c[j],
            ) by {
            if t < appended(known, d).len() {
                let j = choose|j: int|
                    0 <= j < d.len() && !known.contains(label_id(d[j].id)) && appended(known, d)[t]
                        == new_signature(d[j]);
                assert(c[j] == d[j]);
            } else {
                assert(c[c.len() - 1] == c.last());
            }
        }
    }
}

proof fn lemma_appended_covers(known: Seq<SignatureIdView>, c: Seq<ClipboardItemView>)
    ensures
        forall|j: int|
            0 <= j < c.len() ==> known.contains(label_id(c[j].id)) || exists|t: int|
                0 <= t < appended(known, c).len() && appended(known, c)[t].identifier == label_id(
                    c[j].id,
                ),
    decreases c.len(),
{
    if c.len() > 0 {
        let d = c.drop_last();
        lemma_appended_covers(known, d);
        let a = appended(known, c);
        assert forall|j: int| 0 <= j < c.len() implies known.contains(label_id(c[j].id)) || exists|
            t: int,
        | 0 <= t < a.len() && a[t].identifier == label_id(c[j].id) by {
            if j < d.len() {
                assert(c[j] == d[j]);
                if !known.contains(label_id(d[j].id)) {
                    let t = choose|t: int|
                        0 <= t < appended(known, d).len() && appended(known, d)[t].identifier
                            == label_id(d[j].id);
                    assert(a[t] == appended(known, d)[t]);
                }
            } else if !known.contains(label_id(c[j].id)) {
                assert(a[a.len() - 1] == new_signature(c.last()));
            }
        }
    }
}

proof fn lemma_appended_none(known: Seq<SignatureIdView>, c: Seq<ClipboardItemView>)
    requires
        forall|j: int| 0 <= j < c.len() ==> known.contains(label_id(c[j].id)),
    ensures
        appended(known, c) == Seq::<SignatureView>::empty(),
    decreases c.len(),
{
    if c.len() > 0 {
        let d = c.drop_last();
        assert forall|j: int| 0 <= j < d.len() implies known.contains(label_id(d[j].id)) by {
            assert(d[j] == c[j]);
        }
        lemma_appended_none(known, d);
        assert(known.contains(label_id(c[c.len() - 1].id)));
    }
}

/// Merging a scan a second time changes nothing: `merge(merge(l, c), c) ==
/// merge(l, c)`. This needs one thing of the scan: where a candidate repeats
/// the identifier of an earlier candidate that is new to `l`, the first such
/// candidate, applied to the signature that the repeat creates, leaves it as
/// it is (two different names for one new signature would otherwise take
/// turns).
pub proof fn merge_is_idempotent(l: Seq<SignatureView>, c: Seq<ClipboardItemView>)
    requires
        forall|j: int|
            0 <= j < c.len() && !ids_of(l).contains(label_id(c[j].id)) ==> update_type(
                proposed_type(c[j]),
                proposed_type(matching(c, label_id(c[j].id))->0),
            ) == proposed_type(c[j]),
    ensures
        merge_spec(merge_spec(l, c), c) == merge_spec(l, c),
{
    let u = l.map_values(|s: SignatureView| updated_signature(s, c));
    let a = appended(ids_of(l), c);
    let m = merge_spec(l, c);
    assert(m == u + a);
    lemma_appended_members(ids_of(l), c);
    lemma_appended_covers(ids_of(l), c);
    assert forall|j: int| 0 <= j < c.len() implies ids_of(m).contains(label_id(c[j].id)) by {
        let x = label_id(c[j].id);
        if ids_of(l).contains(x) {
            let i = choose|i: int| 0 <= i < ids_of(l).len() && ids_of(l)[i] == x;
            assert(ids_of(m)[i] == x);
        } else {
            let t = choose|t: int| 0 <= t < a.len() && a[t].identifier == x;
            assert(ids_of(m)[u.len() + t] == x);
        }
    }
    lemma_appended_none(ids_of(m), c);
    assert forall|i: int| 0 <= i < m.len() implies updated_signature(m[i], c) == m[i] by {
        if i < u.len() {
            let s = l[i];
            match matching(c, s.identifier) {
                Some(x) => lemma_update_twice(s.signature_type, proposed_type(x)),
                None => {},
            }
        } else {
            let t = i - u.len();
            let j = choose|j: int|
                0 <= j < c.len() && !ids_of(l).contains(label_id(c[j].id)) && a[t]
                    == new_signature(c[j]);
            let x = label_id(c[j].id);
            lemma_first_index_of(candidate_ids(c), x);
            assert(candidate_ids(c)[j] == x);
        }
    }
    assert(merge_spec(m, c) =~= m);
}

/// A signature whose site name is known keeps it when the candidate that
/// names it is the same kind of site with an empty name.
pub proof fn merge_keeps_site_name(
    l: Seq<SignatureView>,
    c: Seq<ClipboardItemView>,
    i: int,
    m: ClipboardItemView,
)
    requires
        0 <= i < l.len(),
        l[i].signature_type.has_name(),
        matching(c, l[i].identifier) == Some(m),
        m.sig_name.len() == 0,
        same_site_kind(l[i].signature_type, proposed_type(m)),
    ensures
        merge_spec(l, c)[i] == l[i],
{
}

/// A signature known to be a wormhole keeps all its wormhole detail when the
/// candidate that names it is a wormhole.
pub proof fn merge_keeps_wormhole_detail(
    l: Seq<SignatureView>,
    c: Seq<ClipboardItemView>,
    i: int,
    m: ClipboardItemView,
)
    requires
        0 <= i < l.len(),
        l[i].signature_type is Wormhole,
        matching(c, l[i].identifier) == Some(m),
        m.sig_type == "Wormhole"@,
    ensures
        merge_spec(l, c)[i] == l[i],
{
}

/// Merging one candidate whose identifier is not in `l` appends exactly the
/// signature it creates and leaves every recorded signature as it was.
pub proof fn merge_appends_new(l: Seq<SignatureView>, x: ClipboardItemView)
    requires
        !ids_of(l).contains(label_id(x.id)),
    ensures
        merge_spec(l, seq![x]) == l.push(new_signature(x)),
{
    let c = seq![x];
    assert forall|i: int| 0 <= i < l.len() implies updated_signature(l[i], c) == l[i] by {
        assert(ids_of(l)[i] == l[i].identifier);
        lemma_first_index_of(candidate_ids(c), l[i].identifier);
        assert(candidate_ids(c)[0] == label_id(x.id));
    }
    assert(c.drop_last() =~= Seq::<ClipboardItemView>::empty());
    assert(appended(ids_of(l), c.drop_last()) == Seq::<SignatureView>::empty());
    assert(c.last() == x);
    assert(appended(ids_of(l), c) == seq![new_signature(x)]);
    assert(merge_spec(l, c) =~= l.push(new_signature(x)));
}

} // verus!
