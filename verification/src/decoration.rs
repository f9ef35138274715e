//! Decoration tables: per-id decoration lists, per-(id, member) lists,
//! and decoration groups.  Ids marked as groups route later decorations
//! into the group bucket, never into the per-id table, so the two are
//! never conflated.

use vstd::prelude::*;

use crate::desc::{Id, TypeId};
use crate::id_map::{find_last, GetId, RawIdMap, RawIdMapBuilder};
use crate::instruction::{Decoration, DecorationView};

verus! {

/// A member slot paired with its decoration list.
pub type MemberDecoration = (u32, Vec<Decoration>);

impl<T> GetId for (Id, T) {
    open spec fn key(&self) -> u32 {
        self.0.0
    }

    fn get_id(&self) -> (r: Id)
        ensures
            r.0 == self.key(),
    {
        self.0
    }
}

/// The view of a per-id decoration entry.
pub open spec fn dec_entry_view(e: (Id, Vec<Decoration>)) -> (u32, Seq<DecorationView>) {
    (e.0.0, e.1@.map_values(|d: Decoration| d@))
}

/// The view of one member slot's entry.
pub open spec fn member_slot_view(m: (u32, Vec<Decoration>)) -> (u32, Seq<DecorationView>) {
    (m.0, m.1@.map_values(|d: Decoration| d@))
}

/// The view of a per-id member-decoration entry.
pub open spec fn member_entry_view(e: (Id, Vec<(u32, Vec<Decoration>)>)) -> (
    u32,
    Seq<(u32, Seq<DecorationView>)>,
) {
    (e.0.0, e.1@.map_values(|m: (u32, Vec<Decoration>)| member_slot_view(m)))
}

/// The last entry for a key in an association list, if any.
pub open spec fn assoc_last<T>(s: Seq<(u32, T)>, k: u32) -> Option<T>
    decreases s.len(),
{
    if s.len() == 0 {
        None
    } else if s.last().0 == k {
        Some(s.last().1)
    } else {
        assoc_last(s.drop_last(), k)
    }
}

/// The position of the first entry for a member slot, or a negative
/// value when there is none.
pub open spec fn member_index<T>(s: Seq<(u32, T)>, m: u32) -> int
    decreases s.len(),
{
    if s.len() == 0 {
        -1
    } else if s[0].0 == m {
        0
    } else if member_index(s.skip(1), m) < 0 {
        -1
    } else {
        1 + member_index(s.skip(1), m)
    }
}

/// The first entry for a member slot in a member list, if any.
pub open spec fn member_first<T>(s: Seq<(u32, T)>, m: u32) -> Option<T> {
    if member_index(s, m) >= 0 {
        Some(s[member_index(s, m)].1)
    } else {
        None
    }
}

/// A found position with no earlier match is the member index.
pub proof fn lemma_member_index_at<T>(s: Seq<(u32, T)>, m: u32, i: int)
    requires
        0 <= i < s.len(),
        s[i].0 == m,
        forall|j: int| 0 <= j < i ==> s[j].0 != m,
    ensures
        member_index(s, m) == i,
    decreases s.len(),
{
    if i > 0 {
        assert forall|j: int| 0 <= j < i - 1 implies s.skip(1)[j].0 != m by {
            assert(s.skip(1)[j] == s[j + 1]);
        }
        assert(s.skip(1)[i - 1] == s[i]);
        lemma_member_index_at(s.skip(1), m, i - 1);
    }
}

/// No match anywhere means no member index.
pub proof fn lemma_member_index_none<T>(s: Seq<(u32, T)>, m: u32)
    requires
        forall|j: int| 0 <= j < s.len() ==> s[j].0 != m,
    ensures
        member_index(s, m) < 0,
    decreases s.len(),
{
    if s.len() > 0 {
        assert forall|j: int| 0 <= j < s.skip(1).len() implies s.skip(1)[j].0 != m by {
            assert(s.skip(1)[j] == s[j + 1]);
        }
        lemma_member_index_none(s.skip(1), m);
    }
}

/// One element appended to the list of a member slot: the first slot
/// with the member is extended in place, or a fresh one-element slot is
/// appended at the end.
pub open spec fn upsert_member<T>(entry: Seq<(u32, Seq<T>)>, m: u32, d: T) -> Seq<(u32, Seq<T>)> {
    if member_index(entry, m) >= 0 {
        entry.update(member_index(entry, m), (m, entry[member_index(entry, m)].1.push(d)))
    } else {
        entry.push((m, seq![d]))
    }
}

/// Looking an id up in the viewed entries is looking it up in the raw
/// entries and taking the view.
pub proof fn lemma_dec_view_find(s: Seq<(Id, Vec<Decoration>)>, k: u32)
    ensures
        assoc_last(s.map_values(|e: (Id, Vec<Decoration>)| dec_entry_view(e)), k) == (
        match find_last(s, k) {
            Some(e) => Some(e.1@.map_values(|d: Decoration| d@)),
            None => None,
        }),
    decreases s.len(),
{
    let sv = s.map_values(|e: (Id, Vec<Decoration>)| dec_entry_view(e));
    if s.len() > 0 {
        assert(sv.last() == dec_entry_view(s.last()));
        assert(sv.drop_last() =~= s.drop_last().map_values(
            |e: (Id, Vec<Decoration>)| dec_entry_view(e),
        ));
        lemma_dec_view_find(s.drop_last(), k);
    }
}

/// Looking an id up in the viewed member entries is looking it up in the
/// raw entries and taking the view.
pub proof fn lemma_member_view_find(s: Seq<(Id, Vec<(u32, Vec<Decoration>)>)>, k: u32)
    ensures
        assoc_last(
            s.map_values(|e: (Id, Vec<(u32, Vec<Decoration>)>)| member_entry_view(e)),
            k,
        ) == (match find_last(s, k) {
            Some(e) => Some(member_entry_view(e).1),
            None => None,
        }),
    decreases s.len(),
{
    let sv = s.map_values(|e: (Id, Vec<(u32, Vec<Decoration>)>)| member_entry_view(e));
    if s.len() > 0 {
        assert(sv.last() == member_entry_view(s.last()));
        assert(sv.drop_last() =~= s.drop_last().map_values(
            |e: (Id, Vec<(u32, Vec<Decoration>)>)| member_entry_view(e),
        ));
        lemma_member_view_find(s.drop_last(), k);
    }
}

/// An equal-viewed copy of a decoration list.
fn clone_decoration_list(v: &Vec<Decoration>) -> (r: Vec<Decoration>)
    ensures
        r@.len() == v@.len(),
        forall|j: int| 0 <= j < v@.len() ==> (#[trigger] r@[j])@ == v@[j]@,
        r@.map_values(|d: Decoration| d@) == v@.map_values(|d: Decoration| d@),
{
    let mut r: Vec<Decoration> = Vec::new();
    let mut i: usize = 0;
    while i < v.len()
        invariant
            i <= v@.len(),
            r@.len() == i,
            forall|j: int| 0 <= j < i ==> (#[trigger] r@[j])@ == v@[j]@,
        decreases v@.len() - i,
    {
        let d2 = v[i].duplicate();
        r.push(d2);
        i = i + 1;
    }
    proof {
        assert(r@.map_values(|d: Decoration| d@) =~= v@.map_values(|d: Decoration| d@));
    }
    r
}

/// An equal-viewed copy of a member-decoration list.
fn clone_member_list(v: &Vec<(u32, Vec<Decoration>)>) -> (r: Vec<(u32, Vec<Decoration>)>)
    ensures
        r@.len() == v@.len(),
        forall|j: int|
            0 <= j < v@.len() ==> member_slot_view(#[trigger] r@[j]) == member_slot_view(v@[j]),
        r@.map_values(|m: (u32, Vec<Decoration>)| member_slot_view(m)) == v@.map_values(
            |m: (u32, Vec<Decoration>)| member_slot_view(m),
        ),
{
    let mut r: Vec<(u32, Vec<Decoration>)> = Vec::new();
    let mut i: usize = 0;
    while i < v.len()
        invariant
            i <= v@.len(),
            r@.len() == i,
            forall|j: int|
                0 <= j < i ==> member_slot_view(#[trigger] r@[j]) == member_slot_view(v@[j]),
        decreases v@.len() - i,
    {
        let inner = clone_decoration_list(&v[i].1);
        r.push((v[i].0, inner));
        proof {
            assert(member_slot_view(r@[i as int]) =~~= member_slot_view(v@[i as int]));
        }
        i = i + 1;
    }
    proof {
        assert(r@.map_values(|m: (u32, Vec<Decoration>)| member_slot_view(m)) =~= v@.map_values(
            |m: (u32, Vec<Decoration>)| member_slot_view(m),
        ));
    }
    r
}

/// The finalized decoration tables: direct per-id decorations and
/// per-(id, member) decorations, both sorted by id.
pub struct DecorationMap {
    pub decorations: RawIdMap<(Id, Vec<Decoration>)>,
    pub member_decorations: RawIdMap<(Id, Vec<(u32, Vec<Decoration>)>)>,
}

impl DecorationMap {
    /// Both tables are sorted by id.
    pub open spec fn wf(self) -> bool {
        self.decorations.wf() && self.member_decorations.wf()
    }

    /// The direct decorations of an id, if any were recorded.
    pub fn get_decorations(&self, id: Id) -> (r: Option<&Vec<Decoration>>)
        requires
            self.wf(),
        ensures
            (match r {
                Some(v) => find_last(self.decorations.values@, id.0) matches Some(e) && e.1 == *v,
                None => find_last(self.decorations.values@, id.0) matches None,
            }),
    {
        match self.decorations.get(id) {
            Some(e) => Some(&e.1),
            None => None,
        }
    }

    /// The decorations of one member of a structure id, if any.
    pub fn get_member_decorations(&self, id: Id, member: u32) -> (r: Option<&Vec<Decoration>>)
        requires
            self.wf(),
        ensures
            (match find_last(self.member_decorations.values@, id.0) {
                Some(e) => (match member_first(e.1@, member) {
                    Some(l) => r matches Some(v) && *v == l,
                    None => r matches None,
                }),
                None => r matches None,
            }),
    {
        let entry = match self.member_decorations.get(id) {
            Some(e) => e,
            None => {
                return None;
            },
        };
        let list = &entry.1;
        let mut i: usize = 0;
        while i < list.len()
            invariant
                i <= list@.len(),
                self.wf(),
                find_last(self.member_decorations.values@, id.0) == Some(*entry),
                list == &entry.1,
                forall|j: int| 0 <= j < i ==> list@[j].0 != member,
            decreases list@.len() - i,
        {
            if list[i].0 == member {
                proof {
                    lemma_member_index_at(list@, member, i as int);
                }
                return Some(&list[i].1);
            }
            i = i + 1;
        }
        proof {
            lemma_member_index_none(list@, member);
        }
        None
    }
}

/// The accumulating decoration tables: groups already declared, direct
/// decorations, and member decorations, each last-write-wins by id.
pub struct DecorationMapBuilder {
    pub group_decoration: RawIdMapBuilder<(Id, Vec<Decoration>)>,
    pub decorations: RawIdMapBuilder<(Id, Vec<Decoration>)>,
    pub member_decorations: RawIdMapBuilder<(Id, Vec<(u32, Vec<Decoration>)>)>,
}

/// The viewed group entries of a builder.
pub open spec fn groups_view(b: DecorationMapBuilder) -> Seq<(u32, Seq<DecorationView>)> {
    b.group_decoration.values@.map_values(|e: (Id, Vec<Decoration>)| dec_entry_view(e))
}

/// The viewed direct-decoration entries of a builder.
pub open spec fn decs_view(b: DecorationMapBuilder) -> Seq<(u32, Seq<DecorationView>)> {
    b.decorations.values@.map_values(|e: (Id, Vec<Decoration>)| dec_entry_view(e))
}

/// The viewed member-decoration entries of a builder.
pub open spec fn members_view(b: DecorationMapBuilder) -> Seq<
    (u32, Seq<(u32, Seq<DecorationView>)>),
> {
    b.member_decorations.values@.map_values(
        |e: (Id, Vec<(u32, Vec<Decoration>)>)| member_entry_view(e),
    )
}

/// One decoration routed into the builder: ids already marked as groups
/// collect into the group bucket, ids already decorated append to their
/// list, fresh ids open a new list.
pub open spec fn spec_insert_decoration(
    groups: Seq<(u32, Seq<DecorationView>)>,
    decs: Seq<(u32, Seq<DecorationView>)>,
    id: u32,
    d: DecorationView,
) -> (Seq<(u32, Seq<DecorationView>)>, Seq<(u32, Seq<DecorationView>)>) {
    match assoc_last(groups, id) {
        Some(g) => (groups.push((id, g.push(d))), decs),
        None => match assoc_last(decs, id) {
            Some(l) => (groups, decs.push((id, l.push(d)))),
            None => (groups, decs.push((id, seq![d]))),
        },
    }
}

impl DecorationMapBuilder {
    /// Empty tables.
    pub fn new() -> (r: DecorationMapBuilder)
        ensures
            groups_view(r) =~= Seq::<(u32, Seq<DecorationView>)>::empty(),
            decs_view(r) =~= Seq::<(u32, Seq<DecorationView>)>::empty(),
            members_view(r) =~= Seq::<(u32, Seq<(u32, Seq<DecorationView>)>)>::empty(),
    {
        DecorationMapBuilder {
            group_decoration: RawIdMapBuilder::new(),
            decorations: RawIdMapBuilder::new(),
            member_decorations: RawIdMapBuilder::new(),
        }
    }

    /// The decorations recorded so far for an id, groups aside.
    pub fn get_decorations(&self, id: Id) -> (r: Option<&Vec<Decoration>>)
        ensures
            (match r {
                Some(v) => assoc_last(decs_view(*self), id.0) == Some(
                    v@.map_values(|d: Decoration| d@),
                ),
                None => assoc_last(decs_view(*self), id.0) matches None,
            }),
    {
        proof {
            lemma_dec_view_find(self.decorations.values@, id.0);
        }
        match self.decorations.get(id) {
            Some(e) => Some(&e.1),
            None => None,
        }
    }

    /// The member decorations recorded so far for one member of a
    /// structure id, if any; the first slot for the member wins.
    pub fn get_member_decorations(&self, id: Id, member: u32) -> (r: Option<&Vec<Decoration>>)
        ensures
            (match find_last(self.member_decorations.values@, id.0) {
                Some(e) => (match member_first(e.1@, member) {
                    Some(l) => r matches Some(v) && *v == l,
                    None => r matches None,
                }),
                None => r matches None,
            }),
    {
        let entry = match self.member_decorations.get(id) {
            Some(e) => e,
            None => {
                return None;
            },
        };
        let list = &entry.1;
        let mut i: usize = 0;
        while i < list.len()
            invariant
                i <= list@.len(),
                find_last(self.member_decorations.values@, id.0) == Some(*entry),
                list == &entry.1,
                forall|j: int| 0 <= j < i ==> list@[j].0 != member,
            decreases list@.len() - i,
        {
            if list[i].0 == member {
                proof {
                    lemma_member_index_at(list@, member, i as int);
                }
                return Some(&list[i].1);
            }
            i = i + 1;
        }
        proof {
            lemma_member_index_none(list@, member);
        }
        None
    }

    /// Marks an id as a decoration group: later decorations on it land
    /// in the group bucket.
    pub fn insert_group(&mut self, id: Id)
        ensures
            groups_view(*final(self)) == groups_view(*old(self)).push(
                (id.0, Seq::<DecorationView>::empty()),
            ),
            decs_view(*final(self)) == decs_view(*old(self)),
            members_view(*final(self)) == members_view(*old(self)),
    {
        self.group_decoration.insert((id, Vec::new()));
        proof {
            assert(groups_view(*self) =~~= groups_view(*old(self)).push(
                (id.0, Seq::<DecorationView>::empty()),
            ));
        }
    }

    /// Records one decoration for an id, routing it to the group bucket
    /// when the id was declared a group.
    pub fn insert_decoration(&mut self, id: Id, decoration: Decoration)
        ensures
            ({
                let (g2, d2) = spec_insert_decoration(
                    groups_view(*old(self)),
                    decs_view(*old(self)),
                    id.0,
                    decoration@,
                );
                groups_view(*final(self)) == g2 && decs_view(*final(self)) == d2
            }),
            members_view(*final(self)) == members_view(*old(self)),
    {
        proof {
            lemma_dec_view_find(self.group_decoration.values@, id.0);
            lemma_dec_view_find(self.decorations.values@, id.0);
        }
        let in_group = match self.group_decoration.get(id) {
            Some(e) => Some(clone_decoration_list(&e.1)),
            None => None,
        };
        match in_group {
            Some(mut list) => {
                let ghost oldview = list@.map_values(|d: Decoration| d@);
                list.push(decoration);
                self.group_decoration.insert((id, list));
                proof {
                    assert(list@.map_values(|d: Decoration| d@) =~~= oldview.push(decoration@));
                    assert(groups_view(*self) =~~= groups_view(*old(self)).push(
                        (id.0, oldview.push(decoration@)),
                    ));
                }
                return ;
            },
            None => {},
        }
        let in_decs = match self.decorations.get(id) {
            Some(e) => Some(clone_decoration_list(&e.1)),
            None => None,
        };
        match in_decs {
            Some(mut list) => {
                let ghost oldview = list@.map_values(|d: Decoration| d@);
                list.push(decoration);
                self.decorations.insert((id, list));
                proof {
                    assert(list@.map_values(|d: Decoration| d@) =~~= oldview.push(decoration@));
                    assert(decs_view(*self) =~~= decs_view(*old(self)).push(
                        (id.0, oldview.push(decoration@)),
                    ));
                }
            },
            None => {
                let mut list: Vec<Decoration> = Vec::new();
                list.push(decoration);
                self.decorations.insert((id, list));
                proof {
                    assert(list@.map_values(|d: Decoration| d@) =~~= seq![decoration@]);
                    assert(decs_view(*self) =~~= decs_view(*old(self)).push(
                        (id.0, seq![decoration@]),
                    ));
                }
            },
        }
    }

    /// Records one decoration for a member of a structure id: appended
    /// to the first slot for that member, with entry and slot created on
    /// first touch.
    pub fn insert_member_decoration(&mut self, id: TypeId, member: u32, decoration: Decoration)
        ensures
            groups_view(*final(self)) == groups_view(*old(self)),
            decs_view(*final(self)) == decs_view(*old(self)),
            members_view(*final(self)) == members_view(*old(self)).push(
                (
                    id.0,
                    upsert_member(
                        (match assoc_last(members_view(*old(self)), id.0) {
                            Some(e) => e,
                            None => Seq::<(u32, Seq<DecorationView>)>::empty(),
                        }),
                        member,
                        decoration@,
                    ),
                ),
            ),
    {
        let gid = Id(id.0);
        proof {
            lemma_member_view_find(self.member_decorations.values@, id.0);
        }
        let have = match self.member_decorations.get(gid) {
            Some(e) => Some(clone_member_list(&e.1)),
            None => None,
        };
        match have {
            Some(mut entry) => {
                let ghost eview = entry@.map_values(
                    |mm: (u32, Vec<Decoration>)| member_slot_view(mm),
                );
                let mut i: usize = 0;
                let mut found = false;
                while i < entry.len() && !found
                    invariant
                        i <= entry@.len(),
                        entry@.len() == eview.len(),
                        eview == entry@.map_values(|mm: (u32, Vec<Decoration>)| member_slot_view(mm)),
                        !found ==> forall|j: int| 0 <= j < i ==> entry@[j].0 != member,
                        found ==> i < entry@.len() && entry@[i as int].0 == member && (forall|
                            j: int,
                        |
                            0 <= j < i ==> entry@[j].0 != member),
                    decreases entry@.len() - i + (if found {
                        0int
                    } else {
                        1int
                    }),
                {
                    if entry[i].0 == member {
                        found = true;
                    } else {
                        i = i + 1;
                    }
                }
                if found {
                    let mut dl = clone_decoration_list(&entry[i].1);
                    dl.push(decoration.duplicate());
                    proof {
                        assert forall|j: int| 0 <= j < i implies eview[j].0 != member by {
                            assert(eview[j].0 == entry@[j].0);
                        }
                        assert(eview[i as int].0 == member);
                        lemma_member_index_at(eview, member, i as int);
                    }
                    entry.set(i, (member, dl));
                    proof {
                        assert(entry@.map_values(|mm: (u32, Vec<Decoration>)| member_slot_view(mm))
                            =~~= upsert_member(eview, member, decoration@));
                    }
                    self.member_decorations.insert((gid, entry));
                    proof {
                        assert(members_view(*self) =~~= members_view(*old(self)).push(
                            (id.0, upsert_member(eview, member, decoration@)),
                        ));
                    }
                } else {
                    proof {
                        assert forall|j: int| 0 <= j < eview.len() implies eview[j].0 != member by {
                            assert(eview[j].0 == entry@[j].0);
                        }
                        lemma_member_index_none(eview, member);
                    }
                    let mut dl: Vec<Decoration> = Vec::new();
                    dl.push(decoration);
                    entry.push((member, dl));
                    proof {
                        assert(dl@.map_values(|d: Decoration| d@) =~~= seq![decoration@]);
                        assert(entry@.map_values(|mm: (u32, Vec<Decoration>)| member_slot_view(mm))
                            =~~= upsert_member(eview, member, decoration@));
                    }
                    self.member_decorations.insert((gid, entry));
                    proof {
                        assert(members_view(*self) =~~= members_view(*old(self)).push(
                            (id.0, upsert_member(eview, member, decoration@)),
                        ));
                    }
                }
            },
            None => {
                let mut dl: Vec<Decoration> = Vec::new();
                dl.push(decoration);
                let mut entry: Vec<(u32, Vec<Decoration>)> = Vec::new();
                entry.push((member, dl));
                self.member_decorations.insert((gid, entry));
                proof {
                    let e0 = Seq::<(u32, Seq<DecorationView>)>::empty();
                    lemma_member_index_none(e0, member);
                    assert(entry@.map_values(|mm: (u32, Vec<Decoration>)| member_slot_view(mm))
                        =~~= upsert_member(e0, member, decoration@));
                    assert(members_view(*self) =~~= members_view(*old(self)).push(
                        (id.0, upsert_member(e0, member, decoration@)),
                    ));
                }
            },
        }
    }

    /// Finalizes the builder into the sorted decoration tables; for
    /// every id they reflect the accumulated lists.
    pub fn into_decoration_map(self) -> (r: DecorationMap)
        ensures
            r.wf(),
            forall|k: u32|
                find_last(r.decorations.values@, k) == find_last(self.decorations.values@, k),
            forall|k: u32|
                find_last(r.member_decorations.values@, k) == find_last(
                    self.member_decorations.values@,
                    k,
                ),
    {
        DecorationMap {
            decorations: self.decorations.into_id_map(),
            member_decorations: self.member_decorations.into_id_map(),
        }
    }
}

} // verus!
