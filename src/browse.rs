//! References between nodes and paged browsing of them.

use vstd::prelude::*;
use crate::address_space::AddressSpace;
use crate::types::{NodeId, NodeIdModel, StatusCode};

verus! {

/// Which end of a reference a browse starts from.
#[derive(Debug, Clone, Copy, PartialEq, Eq, Structural)]
pub enum BrowseDirection {
    Forward,
    Inverse,
}

/// A reference, stored once at its source: `source --reference_type--> target`.
#[derive(Debug, Clone, PartialEq)]
pub struct ReferenceRecord {
    pub source: NodeId,
    pub reference_type: NodeId,
    pub target: NodeId,
}

/// One reference as a browse reports it.
#[derive(Debug, Clone, PartialEq)]
pub struct ReferenceDescription {
    pub reference_type: NodeId,
    pub node_id: NodeId,
    pub is_forward: bool,
}

pub struct ReferenceDescriptionModel {
    pub reference_type: NodeIdModel,
    pub node_id: NodeIdModel,
    pub is_forward: bool,
}

impl View for ReferenceDescription {
    type V = ReferenceDescriptionModel;

    open spec fn view(&self) -> ReferenceDescriptionModel {
        ReferenceDescriptionModel {
            reference_type: self.reference_type@,
            node_id: self.node_id@,
            is_forward: self.is_forward,
        }
    }
}

pub open spec fn descriptions_view(v: Seq<ReferenceDescription>) -> Seq<ReferenceDescriptionModel> {
    v.map_values(|d: ReferenceDescription| d@)
}

/// How reference `r` shows when browsing node `id` in direction `dir`.
pub open spec fn describe(r: ReferenceRecord, id: NodeIdModel, dir: BrowseDirection) -> Option<
    ReferenceDescriptionModel,
> {
    match dir {
        BrowseDirection::Forward => if r.source@ == id {
            Some(ReferenceDescriptionModel { reference_type: r.reference_type@, node_id: r.target@, is_forward: true })
        } else {
            None
        },
        BrowseDirection::Inverse => if r.target@ == id {
            Some(ReferenceDescriptionModel { reference_type: r.reference_type@, node_id: r.source@, is_forward: false })
        } else {
            None
        },
    }
}

/// Every reference of node `id` in direction `dir`, in storage order.
pub open spec fn matching(refs: Seq<ReferenceRecord>, id: NodeIdModel, dir: BrowseDirection) -> Seq<
    ReferenceDescriptionModel,
>
    decreases refs.len(),
{
    if refs.len() == 0 {
        Seq::empty()
    } else {
        let m = matching(refs.drop_last(), id, dir);
        match describe(refs.last(), id, dir) {
            Some(d) => m.push(d),
            None => m,
        }
    }
}

/// Where a paged browse goes on: the node, the direction and how many
/// references were already handed out.
#[derive(Debug, Clone, PartialEq)]
pub struct ContinuationPoint {
    pub node_id: NodeId,
    pub direction: BrowseDirection,
    pub offset: usize,
}

/// A page of references, and where to go on if more remain.
#[derive(Debug, Clone, PartialEq)]
pub struct BrowsePage {
    pub references: Vec<ReferenceDescription>,
    pub continuation_point: Option<ContinuationPoint>,
}

/// The page of `all` that starts at `offset` and holds at most `max`
/// references, `max` zero meaning no bound; the continuation offset if
/// more remain.
pub open spec fn page_end(len: int, offset: int, max: int) -> int {
    if max == 0 || offset + max >= len {
        len
    } else {
        offset + max
    }
}

/// A browse forward from one node shows a reference exactly when a browse
/// inverse from its target shows it back.
pub proof fn lemma_forward_has_inverse(
    refs: Seq<ReferenceRecord>,
    a: NodeIdModel,
    b: NodeIdModel,
    t: NodeIdModel,
)
    ensures
        matching(refs, a, BrowseDirection::Forward).contains(
            ReferenceDescriptionModel { reference_type: t, node_id: b, is_forward: true },
        ) <==> matching(refs, b, BrowseDirection::Inverse).contains(
            ReferenceDescriptionModel { reference_type: t, node_id: a, is_forward: false },
        ),
    decreases refs.len(),
{
    let fwd = ReferenceDescriptionModel { reference_type: t, node_id: b, is_forward: true };
    let inv = ReferenceDescriptionModel { reference_type: t, node_id: a, is_forward: false };
    if refs.len() > 0 {
        lemma_forward_has_inverse(refs.drop_last(), a, b, t);
        let mf = matching(refs.drop_last(), a, BrowseDirection::Forward);
        let mi = matching(refs.drop_last(), b, BrowseDirection::Inverse);
        let r = refs.last();
        let hit = r.source@ == a && r.target@ == b && r.reference_type@ == t;
        match describe(r, a, BrowseDirection::Forward) {
            Some(d) => {
                assert(mf.push(d).contains(fwd) <==> (mf.contains(fwd) || d == fwd)) by {
                    if mf.push(d).contains(fwd) {
                        let k = choose|k: int| 0 <= k < mf.push(d).len() && mf.push(d)[k] == fwd;
                        if k < mf.len() {
                            assert(mf[k] == fwd);
                        }
                    }
                    if mf.contains(fwd) {
                        let k = choose|k: int| 0 <= k < mf.len() && mf[k] == fwd;
                        assert(mf.push(d)[k] == fwd);
                    }
                    if d == fwd {
                        assert(mf.push(d)[mf.len() as int] == fwd);
                    }
                }
            },
            None => {},
        }
        match describe(r, b, BrowseDirection::Inverse) {
            Some(d) => {
                assert(mi.push(d).contains(inv) <==> (mi.contains(inv) || d == inv)) by {
                    if mi.push(d).contains(inv) {
                        let k = choose|k: int| 0 <= k < mi.push(d).len() && mi.push(d)[k] == inv;
                        if k < mi.len() {
                            assert(mi[k] == inv);
                        }
                    }
                    if mi.contains(inv) {
                        let k = choose|k: int| 0 <= k < mi.len() && mi[k] == inv;
                        assert(mi.push(d)[k] == inv);
                    }
                    if d == inv {
                        assert(mi.push(d)[mi.len() as int] == inv);
                    }
                }
            },
            None => {},
        }
    } else {
        assert(!Seq::<ReferenceDescriptionModel>::empty().contains(fwd));
        assert(!Seq::<ReferenceDescriptionModel>::empty().contains(inv));
    }
}

impl ReferenceRecord {
    pub open spec fn same(&self, source: NodeIdModel, reference_type: NodeIdModel, target: NodeIdModel) -> bool {
        self.source@ == source && self.reference_type@ == reference_type && self.target@ == target
    }
}

impl AddressSpace {
    pub open spec fn has_reference(
        &self,
        source: NodeIdModel,
        reference_type: NodeIdModel,
        target: NodeIdModel,
    ) -> bool {
        exists|i: int| 0 <= i < self.references@.len() && #[trigger] self.references@[i].same(source, reference_type, target)
    }

    /// Adds the reference `source --reference_type--> target`. Both ends
    /// must be nodes of the space, else `BadNodeIdUnknown`; adding a
    /// reference that is already there changes nothing.
    pub fn add_reference(&mut self, source: &NodeId, reference_type: &NodeId, target: &NodeId) -> (r: Result<
        (),
        StatusCode,
    >)
        requires
            old(self).wf(),
        ensures
            final(self).wf(),
            final(self).nodes@ == old(self).nodes@,
            !(old(self).contains(source@) && old(self).contains(target@)) ==> r == Err::<(), StatusCode>(
                StatusCode::BadNodeIdUnknown,
            ) && final(self).references@ == old(self).references@,
            old(self).contains(source@) && old(self).contains(target@) ==> r is Ok,
            old(self).has_reference(source@, reference_type@, target@) ==> final(self).references@ == old(
                self,
            ).references@,
            r is Ok && !old(self).has_reference(source@, reference_type@, target@) ==> final(self).references@.len()
                == old(self).references@.len() + 1 && final(self).references@.drop_last() == old(self).references@
                && final(self).references@.last().same(source@, reference_type@, target@),
    {
        if self.index_of(source).is_none() || self.index_of(target).is_none() {
            return Err(StatusCode::BadNodeIdUnknown);
        }
        let mut i: usize = 0;
        while i < self.references.len()
            invariant
                *self == *old(self),
                self.wf(),
                self.contains(source@) && self.contains(target@),
                i <= self.references@.len(),
                forall|j: int| 0 <= j < i ==> !(#[trigger] self.references@[j].same(source@, reference_type@, target@)),
            decreases self.references@.len() - i,
        {
            let rec = &self.references[i];
            if rec.source.equals(source) && rec.reference_type.equals(reference_type) && rec.target.equals(target) {
                assert(self.references@[i as int].same(source@, reference_type@, target@));
                return Ok(());
            }
            i = i + 1;
        }
        let ghost q = self.references@;
        self.references.push(
            ReferenceRecord {
                source: source.duplicate(),
                reference_type: reference_type.duplicate(),
                target: target.duplicate(),
            },
        );
        assert(self.references@.drop_last() =~= q);
        Ok(())
    }

    /// Every reference of node `id` in direction `dir`, in storage order.
    pub fn references_of(&self, id: &NodeId, dir: BrowseDirection) -> (r: Vec<ReferenceDescription>)
        ensures
            descriptions_view(r@) == matching(self.references@, id@, dir),
    {
        let mut out: Vec<ReferenceDescription> = Vec::new();
        let mut i: usize = 0;
        while i < self.references.len()
            invariant
                i <= self.references@.len(),
                descriptions_view(out@) == matching(self.references@.subrange(0, i as int), id@, dir),
            decreases self.references@.len() - i,
        {
            let rec = &self.references[i];
            let ghost before = out@;
            let shown = match dir {
                BrowseDirection::Forward => rec.source.equals(id),
                BrowseDirection::Inverse => rec.target.equals(id),
            };
            if shown {
                let other = match dir {
                    BrowseDirection::Forward => rec.target.duplicate(),
                    BrowseDirection::Inverse => rec.source.duplicate(),
                };
                let is_forward = match dir {
                    BrowseDirection::Forward => true,
                    BrowseDirection::Inverse => false,
                };
                out.push(
                    ReferenceDescription { reference_type: rec.reference_type.duplicate(), node_id: other, is_forward },
                );
                assert(descriptions_view(out@) =~= descriptions_view(before).push(out@.last()@));
            }
            proof {
                assert(self.references@.subrange(0, i + 1).drop_last() =~= self.references@.subrange(0, i as int));
            }
            i = i + 1;
        }
        assert(self.references@.subrange(0, self.references@.len() as int) =~= self.references@);
        out
    }

    /// The page of node `id`'s references in direction `dir` that starts at
    /// `offset` and holds at most `max_references` (zero: no bound), with a
    /// continuation point if more remain. An unknown node is
    /// `BadNodeIdUnknown`; an offset past the end is
    /// `BadContinuationPointInvalid`.
    pub fn browse_from(&self, node_id: &NodeId, dir: BrowseDirection, offset: usize, max_references: usize) -> (r:
        Result<BrowsePage, StatusCode>)
        requires
            self.wf(),
        ensures
            !self.contains(node_id@) ==> r == Err::<BrowsePage, StatusCode>(StatusCode::BadNodeIdUnknown),
            self.contains(node_id@) ==> ({
                let all = matching(self.references@, node_id@, dir);
                let end = page_end(all.len() as int, offset as int, max_references as int);
                if offset > all.len() {
                    r == Err::<BrowsePage, StatusCode>(StatusCode::BadContinuationPointInvalid)
                } else {
                    &&& r matches Ok(page)
                    &&& descriptions_view(page.references@) == all.subrange(offset as int, end)
                    &&& end < all.len() ==> (page.continuation_point matches Some(cp) && cp.node_id@ == node_id@
                        && cp.direction == dir && cp.offset == end)
                    &&& end == all.len() ==> page.continuation_point is None
                }
            }),
    {
        if self.index_of(node_id).is_none() {
            return Err(StatusCode::BadNodeIdUnknown);
        }
        let all = self.references_of(node_id, dir);
        let len = all.len();
        if offset > len {
            return Err(StatusCode::BadContinuationPointInvalid);
        }
        let end: usize = if max_references == 0 || max_references >= len - offset {
            len
        } else {
            offset + max_references
        };
        let mut refs: Vec<ReferenceDescription> = Vec::new();
        let mut i: usize = offset;
        while i < end
            invariant
                offset <= i <= end <= all@.len(),
                descriptions_view(refs@) == descriptions_view(all@).subrange(offset as int, i as int),
            decreases end - i,
        {
            let ghost before = refs@;
            refs.push(
                ReferenceDescription {
                    reference_type: all[i].reference_type.duplicate(),
                    node_id: all[i].node_id.duplicate(),
                    is_forward: all[i].is_forward,
                },
            );
            assert(refs@.last()@ == all@[i as int]@);
            assert(descriptions_view(refs@) =~= descriptions_view(before).push(all@[i as int]@));
            i = i + 1;
            assert(descriptions_view(refs@) =~= descriptions_view(all@).subrange(offset as int, i as int));
        }
        let continuation_point = if end < len {
            Some(ContinuationPoint { node_id: node_id.duplicate(), direction: dir, offset: end })
        } else {
            None
        };
        Ok(BrowsePage { references: refs, continuation_point })
    }

    /// The first page of node `node_id`'s references in direction `dir`.
    pub fn browse(&self, node_id: &NodeId, dir: BrowseDirection, max_references: usize) -> (r: Result<
        BrowsePage,
        StatusCode,
    >)
        requires
            self.wf(),
        ensures
            !self.contains(node_id@) ==> r == Err::<BrowsePage, StatusCode>(StatusCode::BadNodeIdUnknown),
            self.contains(node_id@) ==> ({
                let all = matching(self.references@, node_id@, dir);
                let end = page_end(all.len() as int, 0, max_references as int);
                &&& r matches Ok(page)
                &&& descriptions_view(page.references@) == all.subrange(0, end)
                &&& end < all.len() ==> (page.continuation_point matches Some(cp) && cp.node_id@ == node_id@
                    && cp.direction == dir && cp.offset == end)
                &&& end == all.len() ==> page.continuation_point is None
            }),
    {
        self.browse_from(node_id, dir, 0, max_references)
    }

    /// The page that a continuation point leads to; the point is used up.
    pub fn browse_next(&self, continuation_point: ContinuationPoint, max_references: usize) -> (r: Result<
        BrowsePage,
        StatusCode,
    >)
        requires
            self.wf(),
        ensures
            !self.contains(continuation_point.node_id@) ==> r == Err::<BrowsePage, StatusCode>(
                StatusCode::BadNodeIdUnknown,
            ),
            self.contains(continuation_point.node_id@) ==> ({
                let all = matching(self.references@, continuation_point.node_id@, continuation_point.direction);
                let offset = continuation_point.offset as int;
                let end = page_end(all.len() as int, offset, max_references as int);
                if offset > all.len() {
                    r == Err::<BrowsePage, StatusCode>(StatusCode::BadContinuationPointInvalid)
                } else {
                    &&& r matches Ok(page)
                    &&& descriptions_view(page.references@) == all.subrange(offset, end)
                    &&& end < all.len() ==> (page.continuation_point matches Some(cp) && cp.node_id@
                        == continuation_point.node_id@ && cp.direction == continuation_point.direction && cp.offset
                        == end)
                    &&& end == all.len() ==> page.continuation_point is None
                }
            }),
    {
        self.browse_from(
            &continuation_point.node_id,
            continuation_point.direction,
            continuation_point.offset,
            max_references,
        )
    }
}

} // verus!
