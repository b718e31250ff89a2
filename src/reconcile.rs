//! Reconciliation of a fresh scan with the signatures already recorded for a system.
//!
//! A scan never erases what is known: a signature that is missing from it is
//! kept, a classification is never replaced by a less specific one, and
//! wormhole detail (entered by the player) is never reset by a rescan.

use vstd::prelude::*;
use crate::paste::{items_view, ClipboardItem, ClipboardItemView};
use crate::signature::{
    fresh_wormhole, Signature, SignatureId, SignatureIdView, SignatureType, SignatureTypeView,
    SignatureView, SignatureWormhole,
};
use crate::text::{chars_of, first_index_of, lemma_first_index_is, lemma_first_index_of, same_text};

verus! {

/// Length of the group code at the start of a label written without a dash.
pub const GROUP_WIDTH: usize = 3;

/// The identifier that a candidate's label names: the group and the number on
/// either side of its first dash or, where it has no dash, its first three
/// characters and the rest.
pub open spec fn label_id(text: Seq<char>) -> SignatureIdView {
    let d = first_index_of(text, '-');
    if d >= 0 {
        SignatureIdView { id: text.take(d), number: text.skip(d + 1) }
    } else if text.len() >= GROUP_WIDTH {
        SignatureIdView { id: text.take(GROUP_WIDTH as int), number: text.skip(GROUP_WIDTH as int) }
    } else {
        SignatureIdView { id: text, number: Seq::empty() }
    }
}

/// The classification that a candidate proposes: Unknown for an empty or
/// unrecognised category, a fresh wormhole for "Wormhole", else the site
/// variant with the candidate's name (none where the name is empty).
pub open spec fn proposed_type(c: ClipboardItemView) -> SignatureTypeView {
    let name = if c.sig_name.len() == 0 {
        None
    } else {
        Some(c.sig_name)
    };
    if c.sig_type == "Wormhole"@ {
        SignatureTypeView::Wormhole(fresh_wormhole())
    } else if c.sig_type == "Gas"@ {
        SignatureTypeView::Gas(name)
    } else if c.sig_type == "Relic"@ {
        SignatureTypeView::Relic(name)
    } else if c.sig_type == "Data"@ {
        SignatureTypeView::Data(name)
    } else if c.sig_type == "Combat"@ {
        SignatureTypeView::Combat(name)
    } else if c.sig_type == "Ore"@ {
        SignatureTypeView::Ore(name)
    } else {
        SignatureTypeView::Unknown
    }
}

/// The classification that results from applying a proposal to what is known.
pub open spec fn update_type(
    existing: SignatureTypeView,
    proposed: SignatureTypeView,
) -> SignatureTypeView {
    match proposed {
        SignatureTypeView::Unknown => existing,
        SignatureTypeView::Wormhole(_) => {
            if existing is Wormhole {
                existing
            } else {
                SignatureTypeView::Wormhole(fresh_wormhole())
            }
        },
        _ => {
            if proposed.has_name() {
                proposed
            } else if existing.has_name() {
                existing
            } else {
                proposed
            }
        },
    }
}

pub open spec fn candidate_ids(c: Seq<ClipboardItemView>) -> Seq<SignatureIdView> {
    c.map_values(|x: ClipboardItemView| label_id(x.id))
}

/// The first candidate whose label names `id`.
pub open spec fn matching(c: Seq<ClipboardItemView>, id: SignatureIdView) -> Option<
    ClipboardItemView,
> {
    let j = first_index_of(candidate_ids(c), id);
    if j >= 0 {
        Some(c[j])
    } else {
        None
    }
}

/// A recorded signature after the first candidate that names it, if any, is applied.
pub open spec fn updated_signature(s: SignatureView, c: Seq<ClipboardItemView>) -> SignatureView {
    match matching(c, s.identifier) {
        Some(m) => SignatureView {
            identifier: s.identifier,
            signature_type: update_type(s.signature_type, proposed_type(m)),
        },
        None => s,
    }
}

/// The signature that a candidate creates when its identifier is new.
pub open spec fn new_signature(x: ClipboardItemView) -> SignatureView {
    SignatureView { identifier: label_id(x.id), signature_type: proposed_type(x) }
}

pub open spec fn ids_of(l: Seq<SignatureView>) -> Seq<SignatureIdView> {
    l.map_values(|s: SignatureView| s.identifier)
}

/// The signatures that the candidates with identifiers outside `known` create, in order.
pub open spec fn appended(known: Seq<SignatureIdView>, c: Seq<ClipboardItemView>) -> Seq<
    SignatureView,
>
    decreases c.len(),
{
    if c.len() == 0 {
        Seq::empty()
    } else {
        let earlier = appended(known, c.drop_last());
        if known.contains(label_id(c.last().id)) {
            earlier
        } else {
            earlier.push(new_signature(c.last()))
        }
    }
}

/// The list that merging the candidates `c` into the list `l` gives: each
/// recorded signature updated in place, then the new ones appended.
pub open spec fn merge_spec(l: Seq<SignatureView>, c: Seq<ClipboardItemView>) -> Seq<
    SignatureView,
> {
    l.map_values(|s: SignatureView| updated_signature(s, c)) + appended(ids_of(l), c)
}

pub open spec fn sigs_view(l: Seq<Signature>) -> Seq<SignatureView> {
    l.map_values(|s: Signature| s@)
}

pub open spec fn sig_ids_view(l: Seq<SignatureId>) -> Seq<SignatureIdView> {
    l.map_values(|s: SignatureId| s@)
}

impl ClipboardItem {
    /// The identifier that this item's label names.
    pub fn signature_id(&self) -> (r: SignatureId)
        ensures
            r@ == label_id(self.id@),
    {
        let s = chars_of(self.id.as_str());
        let n = s.len();
        let mut d: usize = 0;
        while d < n && s[d] != '-'
            invariant
                d <= n == s@.len(),
                s@ == self.id@,
                forall|k: int| 0 <= k < d ==> s@[k] != '-',
            decreases n - d,
        {
            d = d + 1;
        }
        if d < n {
            proof {
                lemma_first_index_is(s@, '-', d as int);
            }
            let id = self.id.as_str().substring_char(0, d).to_owned();
            let number = self.id.as_str().substring_char(d + 1, n).to_owned();
            SignatureId { id, number }
        } else {
            proof {
                lemma_first_index_is(s@, '-', -1);
            }
            if n >= GROUP_WIDTH {
                let id = self.id.as_str().substring_char(0, GROUP_WIDTH).to_owned();
                let number = self.id.as_str().substring_char(GROUP_WIDTH, n).to_owned();
                SignatureId { id, number }
            } else {
                SignatureId { id: self.id.clone(), number: String::new() }
            }
        }
    }

    /// The classification that this item proposes.
    pub fn signature_type(&self) -> (r: SignatureType)
        ensures
            r@ == proposed_type(self@),
    {
        let name = if self.sig_name.as_str().is_empty() {
            None
        } else {
            Some(self.sig_name.clone())
        };
        let t = self.sig_type.as_str();
        if same_text(t, "Wormhole") {
            SignatureType::Wormhole(SignatureWormhole::default())
        } else if same_text(t, "Gas") {
            SignatureType::Gas(name)
        } else if same_text(t, "Relic") {
            SignatureType::Relic(name)
        } else if same_text(t, "Data") {
            SignatureType::Data(name)
        } else if same_text(t, "Combat") {
            SignatureType::Combat(name)
        } else if same_text(t, "Ore") {
            SignatureType::Ore(name)
        } else {
            SignatureType::Unknown
        }
    }
}

/// Applies a proposed classification to a recorded one.
pub fn merged_type(existing: &SignatureType, proposed: SignatureType) -> (r: SignatureType)
    ensures
        r@ == update_type(existing@, proposed@),
{
    match proposed {
        SignatureType::Unknown => existing.copy(),
        SignatureType::Wormhole(_) => {
            match existing {
                SignatureType::Wormhole(_) => existing.copy(),
                _ => SignatureType::Wormhole(SignatureWormhole::default()),
            }
        },
        _ => {
            if proposed.has_name() {
                proposed
            } else if existing.has_name() {
                existing.copy()
            } else {
                proposed
            }
        },
    }
}

/// Position of the first identifier in `ids` equal to `id`.
fn find_id(ids: &Vec<SignatureId>, id: &SignatureId) -> (r: Option<usize>)
    ensures
        match r {
            Some(j) => first_index_of(sig_ids_view(ids@), id@) == j,
            None => first_index_of(sig_ids_view(ids@), id@) == -1,
        },
{
    let ghost v = sig_ids_view(ids@);
    let mut j: usize = 0;
    while j < ids.len()
        invariant
            j <= ids.len() == v.len(),
            v == sig_ids_view(ids@),
            forall|k: int| 0 <= k < j ==> v[k] != id@,
        decreases ids.len() - j,
    {
        if ids[j].same_as(id) {
            proof {
                lemma_first_index_is(v, id@, j as int);
            }
            return Some(j);
        }
        j = j + 1;
    }
    proof {
        lemma_first_index_is(v, id@, -1);
    }
    None
}

/// Whether one of the first `n` signatures of `l` has the identifier `id`.
fn known_among(l: &Vec<Signature>, n: usize, id: &SignatureId) -> (r: bool)
    requires
        n <= l.len(),
    ensures
        r == exists|m: int| 0 <= m < n && l@[m].identifier@ == id@,
{
    let mut m: usize = 0;
    while m < n
        invariant
            m <= n <= l.len(),
            forall|k: int| 0 <= k < m ==> l@[k].identifier@ != id@,
        decreases n - m,
    {
        if l[m].identifier.same_as(id) {
            return true;
        }
        m = m + 1;
    }
    false
}

/// Merges a scan into a system's signature list: each recorded signature is
/// updated from the first candidate that names it, under the rules of
/// `update_type`; then each candidate whose identifier was not recorded
/// before the call is appended, in the candidates' order.
pub fn merge_signatures(existing: &mut Vec<Signature>, new_data: &[ClipboardItem])
    ensures
        sigs_view(final(existing)@) == merge_spec(sigs_view(old(existing)@), items_view(new_data@)),
{
    let ghost l0 = sigs_view(existing@);
    let ghost cv = items_view(new_data@);
    let mut ids: Vec<SignatureId> = Vec::new();
    let mut j: usize = 0;
    while j < new_data.len()
        invariant
            j <= new_data@.len() == cv.len(),
            cv == items_view(new_data@),
            ids@.len() == j,
            sig_ids_view(ids@) == candidate_ids(cv).take(j as int),
        decreases new_data@.len() - j,
    {
        let id = new_data[j].signature_id();
        assert(id@ == candidate_ids(cv)[j as int]);
        let ghost prev = ids@;
        ids.push(id);
        assert forall|m: int| 0 <= m < j + 1 implies sig_ids_view(ids@)[m] == candidate_ids(
            cv,
        ).take(j + 1)[m] by {
            if m < j {
                assert(sig_ids_view(prev)[m] == candidate_ids(cv).take(j as int)[m]);
            }
        }
        assert(sig_ids_view(ids@) =~= candidate_ids(cv).take(j + 1));
        j = j + 1;
    }
    assert(sig_ids_view(ids@) =~= candidate_ids(cv));
    let n = existing.len();
    let mut i: usize = 0;
    while i < n
        invariant
            i <= n == existing.len() == l0.len(),
            cv == items_view(new_data@),
            ids@.len() == new_data@.len(),
            sig_ids_view(ids@) == candidate_ids(cv),
            forall|k: int| 0 <= k < i ==> existing@[k]@ == updated_signature(l0[k], cv),
            forall|k: int| i <= k < n ==> existing@[k]@ == l0[k],
        decreases n - i,
    {
        match find_id(&ids, &existing[i].identifier) {
            Some(j) => {
                proof {
                    lemma_first_index_of(candidate_ids(cv), l0[i as int].identifier);
                }
                let proposed = new_data[j].signature_type();
                let ty = merged_type(&existing[i].signature_type, proposed);
                let identifier = existing[i].identifier.copy();
                existing.set(i, Signature { identifier, signature_type: ty });
            },
            None => {},
        }
        i = i + 1;
    }
    let ghost updated = l0.map_values(|s: SignatureView| updated_signature(s, cv));
    assert(sigs_view(existing@) =~= updated);
    assert(forall|k: int| 0 <= k < n ==> #[trigger] ids_of(l0)[k] == existing@[k].identifier@);
    let mut k: usize = 0;
    assert(cv.take(0) =~= Seq::<ClipboardItemView>::empty());
    while k < new_data.len()
        invariant
            k <= new_data@.len() == cv.len() == ids@.len(),
            n <= existing.len(),
            n == l0.len(),
            cv == items_view(new_data@),
            sig_ids_view(ids@) == candidate_ids(cv),
            forall|m: int| 0 <= m < n ==> #[trigger] ids_of(l0)[m] == existing@[m].identifier@,
            sigs_view(existing@) == updated + appended(ids_of(l0), cv.take(k as int)),
        decreases new_data@.len() - k,
    {
        assert(cv.take(k + 1).drop_last() =~= cv.take(k as int));
        assert(cv.take(k + 1).last() == cv[k as int]);
        let seen = known_among(existing, n, &ids[k]);
        assert(seen == ids_of(l0).contains(label_id(cv[k as int].id))) by {
            assert(sig_ids_view(ids@)[k as int] == candidate_ids(cv)[k as int]);
            if seen {
                let m = choose|m: int| 0 <= m < n && existing@[m].identifier@ == ids@[k as int]@;
                assert(ids_of(l0)[m] == label_id(cv[k as int].id));
            }
        }
        assert(sig_ids_view(ids@)[k as int] == candidate_ids(cv)[k as int]);
        assert(cv[k as int] == new_data@[k as int]@);
        if !seen {
            let identifier = ids[k].copy();
            let signature_type = new_data[k].signature_type();
            let ghost before = existing@;
            existing.push(Signature { identifier, signature_type });
            assert(sigs_view(existing@) =~= sigs_view(before).push(new_signature(cv[k as int])));
            assert(sigs_view(existing@) =~= updated + appended(ids_of(l0), cv.take(k + 1)));
        } else {
            assert(ids_of(l0).contains(label_id(cv.take(k + 1).last().id)));
            assert(appended(ids_of(l0), cv.take(k + 1)) == appended(ids_of(l0), cv.take(k as int)));
        }
        k = k + 1;
    }
    assert(cv.take(new_data@.len() as int) =~= cv);
}

} // verus!
