use vstd::prelude::*;
use vstd::std_specs::iter::IteratorSpec;
use std::collections::hash_map::Entry;
use std::collections::HashMap;
use crate::geom::Vec2d;
use crate::site::{Site, SiteId, SiteKind};
use crate::tilemap::{MapId, TileMap};

verus! {

/// The handle of a region within its holder.
#[derive(Clone, Copy, Debug, PartialEq, Eq, Hash, Structural)]
pub struct RegionId(pub u32);

impl Default for RegionId {
    /// The handle that a region carries until a holder admits it.
    fn default() -> (rid: RegionId)
        ensures
            rid == RegionId(0),
    {
        RegionId(0)
    }
}

/// A site together with the place where it stands on its region's grid.
#[derive(Debug)]
pub struct SiteInfo {
    pub site: Site,
    pub pos: Vec2d,
}

/// One stored site. Its full identifier is made of the region's own handle, `kind` and `n`.
#[derive(Debug)]
struct SiteSlot {
    kind: SiteKind,
    n: u32,
    info: SiteInfo,
}

/// A region: its own grid and the sites that stand on it.
#[derive(Debug)]
pub struct Region {
    pub name: String,
    id: RegionId,
    sites: Vec<SiteSlot>,
    map: TileMap,
}

/// The identifier that a lookup could not resolve: the handle of a region that is not stored,
/// the identifier of a site that its region does not hold, or the address of a floor that
/// its site does not have.
#[derive(Clone, Copy, Debug, PartialEq, Eq, Structural)]
pub enum UnknownId {
    Region(RegionId),
    Site(SiteId),
    Floor(MapId),
}

/// All regions of a world, each under its handle.
pub struct RegionHolder(HashMap<u32, Region>);

/// Whether `ids` holds every identifier `(rid, kind, m)` with `m < upto`.
pub open spec fn numbers_taken(ids: Seq<SiteId>, rid: RegionId, kind: SiteKind, upto: int) -> bool {
    forall|m: u32| m < upto ==> #[trigger] ids.contains(SiteId { rid, kind, n: m })
}

/// A sequence that holds all of `upto` different numbers of one kind has at least `upto` items.
proof fn lemma_numbers_taken_len(ids: Seq<SiteId>, rid: RegionId, kind: SiteKind, upto: int)
    requires
        0 <= upto <= u32::MAX + 1,
        numbers_taken(ids, rid, kind, upto),
    ensures
        upto <= ids.len(),
{
    let key = |s: SiteId| if s.rid == rid && s.kind == kind { s.n as int } else { -1 };
    let keys = ids.map_values(key);
    let range = vstd::set_lib::set_int_range(0, upto);
    vstd::set_lib::lemma_int_range(0, upto);
    keys.lemma_cardinality_of_set();
    assert(range.subset_of(keys.to_set())) by {
        assert forall|x: int| range.contains(x) implies keys.to_set().contains(x) by {
            let sid = SiteId { rid, kind, n: x as u32 };
            assert(ids.contains(sid));
            let i = choose|i: int| 0 <= i < ids.len() && ids[i] == sid;
            assert(keys[i] == x);
            assert(keys.contains(x));
        }
    }
    vstd::seq_lib::seq_to_set_is_finite(keys);
    vstd::set_lib::lemma_len_subset(range, keys.to_set());
}

/// Pushing a fresh identifier keeps a region well formed and stores the new site under it.
proof fn lemma_push_member(before: Region, after: Region, sid: SiteId, info: SiteInfo)
    requires
        before.wf(),
        before.ids().len() < u32::MAX,
        after.id() == before.id(),
        sid.rid == before.id(),
        !before.has_site(sid),
        after.ids() == before.ids().push(sid),
        after.infos() == before.infos().push(info),
    ensures
        after.wf(),
        after.has_site(sid),
        after.site_info(sid) == info,
        forall|x: SiteId| #[trigger] after.has_site(x) <==> (before.has_site(x) || x == sid),
{
    let len = before.ids().len() as int;
    assert(after.ids()[len] == sid);
    assert(after.infos()[len] == info);
    assert forall|x: SiteId| #[trigger] after.has_site(x) <==> (before.has_site(x) || x == sid) by {
        if before.has_site(x) {
            let i = before.ids().index_of(x);
            assert(after.ids()[i] == x);
        }
        if after.has_site(x) && x != sid {
            let i = after.ids().index_of(x);
            assert(before.ids()[i] == x);
        }
    }
    assert(after.ids().no_duplicates()) by {
        assert forall|i: int, j: int|
            0 <= i < after.ids().len() && 0 <= j < after.ids().len() && i != j implies after.ids()[i]
            != after.ids()[j] by {
            if i < len && j < len {
                assert(before.ids()[i] != before.ids()[j]);
            } else if i < len {
                assert(before.ids()[i] == after.ids()[i]);
            } else {
                assert(before.ids()[j] == after.ids()[j]);
            }
        }
    }
    let k = after.ids().index_of(sid);
    assert(after.ids()[k] == sid);
    assert(k == len);
}

/// Pushing a site raises the count of its kind by one and leaves the other counts alone; in a
/// packed region the smallest free number is the count, and the region stays packed.
proof fn lemma_push_count(before: Region, after: Region, sid: SiteId)
    requires
        before.ids().len() < u32::MAX,
        after.id() == before.id(),
        sid.rid == before.id(),
        !before.has_site(sid),
        numbers_taken(before.ids(), before.id(), sid.kind, sid.n as int),
        after.ids() == before.ids().push(sid),
        forall|x: SiteId| #[trigger] after.has_site(x) <==> (before.has_site(x) || x == sid),
    ensures
        forall|k: SiteKind|
            #[trigger] after.site_count(k) == before.site_count(k) + (if k == sid.kind {
                1nat
            } else {
                0nat
            }),
        before.packed() ==> sid.n == before.site_count(sid.kind) && after.packed(),
{
    assert forall|k: SiteKind|
        #[trigger] after.site_count(k) == before.site_count(k) + (if k == sid.kind {
            1nat
        } else {
            0nat
        }) by {
        before.ids().lemma_filter_len_push(|s: SiteId| s.kind == k, sid);
    }
    before.ids().lemma_filter_len(|s: SiteId| s.kind == sid.kind);
    if before.packed() {
        let count = before.site_count(sid.kind);
        if sid.n < count {
            assert(before.has_site(SiteId { rid: before.id(), kind: sid.kind, n: sid.n }));
        }
        if count < sid.n {
            assert(before.ids().contains(SiteId { rid: before.id(), kind: sid.kind, n: count as u32 }));
            assert(before.has_site(SiteId { rid: before.id(), kind: sid.kind, n: count as u32 }));
        }
        assert(sid.n == count);
        assert forall|kind: SiteKind, n: u32| #[trigger]
            after.has_site(SiteId { rid: after.id(), kind, n }) <==> n < after.site_count(kind) by {
            let x = SiteId { rid: before.id(), kind, n };
            assert(before.has_site(x) <==> n < before.site_count(kind));
            assert(after.has_site(x) <==> (before.has_site(x) || x == sid));
        }
    }
}

/// Whether the site at position `i` of `infos` stands at `pos`.
pub open spec fn site_at(infos: Seq<SiteInfo>, i: int, pos: Vec2d) -> bool {
    0 <= i < infos.len() && infos[i].pos == pos
}

/// Whether one of the sites stands at `pos`.
pub open spec fn some_at(infos: Seq<SiteInfo>, pos: Vec2d) -> bool {
    exists|i: int| #[trigger] site_at(infos, i, pos)
}

/// The position in `infos` of the first site that stands at `pos`.
pub open spec fn first_at(infos: Seq<SiteInfo>, pos: Vec2d) -> int {
    choose|i: int| #[trigger]
        site_at(infos, i, pos) && forall|j: int| 0 <= j < i ==> !#[trigger] site_at(infos, j, pos)
}

/// The first site at a place is the one before which no site stands there.
proof fn lemma_first_at(infos: Seq<SiteInfo>, pos: Vec2d, i: int)
    requires
        site_at(infos, i, pos),
        forall|j: int| 0 <= j < i ==> !#[trigger] site_at(infos, j, pos),
    ensures
        some_at(infos, pos),
        first_at(infos, pos) == i,
{
    let k = first_at(infos, pos);
    assert(site_at(infos, k, pos) && forall|j: int| 0 <= j < k ==> !#[trigger] site_at(infos, j, pos));
    if k < i {
        assert(!site_at(infos, k, pos));
    }
    if i < k {
        assert(!site_at(infos, i, pos));
    }
}

/// A site that stands somewhere has a first one there.
proof fn lemma_some_at(infos: Seq<SiteInfo>, pos: Vec2d)
    requires
        some_at(infos, pos),
    ensures
        site_at(infos, first_at(infos, pos), pos),
        forall|j: int| 0 <= j < first_at(infos, pos) ==> !#[trigger] site_at(infos, j, pos),
{
    let w = choose|i: int| #[trigger] site_at(infos, i, pos);
    lemma_least_at(infos, pos, w);
}

/// Below any site at a place there is a first one.
proof fn lemma_least_at(infos: Seq<SiteInfo>, pos: Vec2d, w: int)
    requires
        site_at(infos, w, pos),
    ensures
        site_at(infos, first_at(infos, pos), pos),
        forall|j: int| 0 <= j < first_at(infos, pos) ==> !#[trigger] site_at(infos, j, pos),
    decreases w,
{
    if exists|j: int| 0 <= j < w && #[trigger] site_at(infos, j, pos) {
        let j = choose|j: int| 0 <= j < w && #[trigger] site_at(infos, j, pos);
        lemma_least_at(infos, pos, j);
    } else {
        assert(site_at(infos, w, pos) && forall|j: int|
            0 <= j < w ==> !#[trigger] site_at(infos, j, pos));
    }
}

/// Pushing a site changes which site is found at a place only where none stood before.
proof fn lemma_push_place(ids: Seq<SiteId>, infos: Seq<SiteInfo>, sid: SiteId, info: SiteInfo)
    requires
        ids.len() == infos.len(),
    ensures
        some_at(infos.push(info), info.pos),
        !some_at(infos, info.pos) ==> ids.push(sid)[first_at(infos.push(info), info.pos)] == sid,
        some_at(infos, info.pos) ==> ids.push(sid)[first_at(infos.push(info), info.pos)]
            == ids[first_at(infos, info.pos)],
{
    let pos = info.pos;
    let len = infos.len() as int;
    let after = infos.push(info);
    assert(site_at(after, len, pos));
    assert forall|j: int| 0 <= j < len implies #[trigger] site_at(after, j, pos) == site_at(
        infos,
        j,
        pos,
    ) by {
        assert(infos[j] == after[j]);
    }
    if some_at(infos, pos) {
        lemma_some_at(infos, pos);
        let i = first_at(infos, pos);
        assert(site_at(after, i, pos));
        assert forall|j: int| 0 <= j < i implies !#[trigger] site_at(after, j, pos) by {
            assert(!site_at(infos, j, pos));
        }
        lemma_first_at(after, pos, i);
    } else {
        assert forall|j: int| 0 <= j < len implies !#[trigger] site_at(after, j, pos) by {
            assert(!site_at(infos, j, pos));
        }
        lemma_first_at(after, pos, len);
    }
}

/// The identifiers with the handle of their region replaced by `rid`.
pub open spec fn renamed(ids: Seq<SiteId>, rid: RegionId) -> Seq<SiteId> {
    Seq::new(ids.len(), |i: int| SiteId { rid, kind: ids[i].kind, n: ids[i].n })
}

/// Replacing the handle leaves the number of identifiers of each kind as it is.
proof fn lemma_renamed_count(ids: Seq<SiteId>, rid: RegionId, kind: SiteKind)
    ensures
        renamed(ids, rid).filter(|s: SiteId| s.kind == kind).len() == ids.filter(
            |s: SiteId| s.kind == kind,
        ).len(),
    decreases ids.len(),
{
    let of_kind = |s: SiteId| s.kind == kind;
    if ids.len() == 0 {
        assert(renamed(ids, rid) =~= ids);
    } else {
        let front = ids.drop_last();
        let x = ids.last();
        lemma_renamed_count(front, rid, kind);
        assert(ids =~= front.push(x));
        assert(renamed(ids, rid) =~= renamed(front, rid).push(SiteId { rid, kind: x.kind, n: x.n }));
        front.lemma_filter_len_push(of_kind, x);
        renamed(front, rid).lemma_filter_len_push(of_kind, SiteId { rid, kind: x.kind, n: x.n });
    }
}

/// A region that a holder admits keeps the count of each kind, and stays packed if it was.
pub proof fn lemma_admitted_keeps_numbers(prev: Region, next: Region, rid: RegionId)
    requires
        prev.wf(),
        next.admitted(prev, rid),
    ensures
        forall|kind: SiteKind| #[trigger] next.site_count(kind) == prev.site_count(kind),
        forall|kind: SiteKind, n: u32| #[trigger]
            next.has_site(SiteId { rid, kind, n }) <==> prev.has_site(
                SiteId { rid: prev.id(), kind, n },
            ),
        prev.packed() ==> next.packed(),
{
    assert forall|kind: SiteKind| #[trigger] next.site_count(kind) == prev.site_count(kind) by {
        lemma_renamed_count(prev.ids(), rid, kind);
    }
    assert forall|kind: SiteKind, n: u32| #[trigger]
        next.has_site(SiteId { rid, kind, n }) <==> prev.has_site(
            SiteId { rid: prev.id(), kind, n },
        ) by {
        let a = SiteId { rid, kind, n };
        let b = SiteId { rid: prev.id(), kind, n };
        if next.has_site(a) {
            let i = next.ids().index_of(a);
            assert(next.ids()[i] == a);
            assert(prev.ids()[i] == b);
        }
        if prev.has_site(b) {
            let i = prev.ids().index_of(b);
            assert(prev.ids()[i] == b);
            assert(next.ids()[i] == a);
        }
    }
}

/// A site that is added at a place where none stood is the one found there afterwards.
pub proof fn lemma_added_site_is_found(before: Region, after: Region, sid: SiteId, info: SiteInfo)
    requires
        before.wf(),
        after.ids() == before.ids().push(sid),
        after.infos() == before.infos().push(info),
        !before.occupied(info.pos),
    ensures
        after.id_at(info.pos) == Some(sid),
{
    lemma_push_place(before.ids(), before.infos(), sid, info);
}

/// In a region whose numbers are packed, the numbers in use of a kind are exactly those below
/// the count of that kind, so the next site of that kind gets the count as its number.
pub proof fn lemma_packed_next_number(region: Region, kind: SiteKind, n: u32)
    requires
        region.wf(),
        region.packed(),
        !region.has_site(SiteId { rid: region.id(), kind, n }),
        numbers_taken(region.ids(), region.id(), kind, n as int),
    ensures
        n == region.site_count(kind),
{
    let count = region.site_count(kind);
    region.ids().lemma_filter_len(|s: SiteId| s.kind == kind);
    if count < n {
        assert(region.ids().contains(SiteId { rid: region.id(), kind, n: count as u32 }));
        assert(region.has_site(SiteId { rid: region.id(), kind, n: count as u32 }));
    }
    if n < count {
        assert(region.has_site(SiteId { rid: region.id(), kind, n }));
    }
}

impl Region {
    /// The handle under which the region is stored.
    pub closed spec fn id(&self) -> RegionId {
        self.id
    }

    /// The region's display name, as a sequence of characters.
    pub closed spec fn name_view(&self) -> Seq<char> {
        self.name@
    }

    /// The region's own grid.
    pub closed spec fn overworld(&self) -> TileMap {
        self.map
    }

    /// The identifiers of the stored sites, oldest first.
    pub closed spec fn ids(&self) -> Seq<SiteId> {
        Seq::new(
            self.sites@.len(),
            |i: int| SiteId { rid: self.id, kind: self.sites@[i].kind, n: self.sites@[i].n },
        )
    }

    /// The stored sites with their places, in the order of `ids`.
    pub closed spec fn infos(&self) -> Seq<SiteInfo> {
        Seq::new(self.sites@.len(), |i: int| self.sites@[i].info)
    }

    /// The invariant of a region: each site has one identifier, no identifier is used twice,
    /// every identifier names this region, and the sites can be counted in a `u32`.
    pub open spec fn wf(&self) -> bool {
        &&& self.ids().len() == self.infos().len()
        &&& self.ids().len() <= u32::MAX
        &&& self.ids().no_duplicates()
        &&& forall|i: int| 0 <= i < self.ids().len() ==> (#[trigger] self.ids()[i]).rid == self.id()
    }

    /// Whether a site is stored under `sid`.
    pub open spec fn has_site(&self, sid: SiteId) -> bool {
        self.ids().contains(sid)
    }

    /// What is stored under `sid`.
    pub open spec fn site_info(&self, sid: SiteId) -> SiteInfo
        recommends
            self.has_site(sid),
    {
        self.infos()[self.ids().index_of(sid)]
    }

    /// How many sites of `kind` are stored.
    pub open spec fn site_count(&self, kind: SiteKind) -> nat {
        self.ids().filter(|s: SiteId| s.kind == kind).len()
    }

    /// Whether the numbers in use are, for each kind, exactly those below the count of that kind.
    pub open spec fn packed(&self) -> bool {
        forall|kind: SiteKind, n: u32|
            #[trigger] self.has_site(SiteId { rid: self.id(), kind, n }) <==> n < self.site_count(kind)
    }

    /// Whether a site stands at `pos`.
    pub open spec fn occupied(&self, pos: Vec2d) -> bool {
        some_at(self.infos(), pos)
    }

    /// The identifier of the oldest site that stands at `pos`, if there is one.
    pub open spec fn id_at(&self, pos: Vec2d) -> Option<SiteId> {
        if self.occupied(pos) {
            Some(self.ids()[first_at(self.infos(), pos)])
        } else {
            None
        }
    }

    /// A region of the given name and grid, without sites. It carries the default handle
    /// until a holder admits it.
    pub fn new(name: &str, map: TileMap) -> (r: Region)
        ensures
            r.wf(),
            r.name_view() == name@,
            r.id() == RegionId(0),
            r.overworld() == map,
            r.ids() == Seq::<SiteId>::empty(),
            r.infos() == Seq::<SiteInfo>::empty(),
            r.packed(),
    {
        let r = Region { name: name.to_string(), id: RegionId(0), sites: Vec::new(), map };
        proof {
            assert(r.ids() =~= Seq::<SiteId>::empty());
            assert(r.infos() =~= Seq::<SiteInfo>::empty());
            assert forall|kind: SiteKind| r.site_count(kind) == 0 by {
                assert(r.ids().filter(|s: SiteId| s.kind == kind).len() == 0) by {
                    r.ids().lemma_filter_len(|s: SiteId| s.kind == kind);
                }
            }
        }
        r
    }

    /// The handle under which the region is stored.
    pub fn get_id(&self) -> (rid: RegionId)
        ensures
            rid == self.id(),
    {
        self.id
    }

    /// The region's own grid.
    pub fn get_map(&self) -> (m: &TileMap)
        ensures
            *m == self.overworld(),
    {
        &self.map
    }

    /// The region's own grid, to be changed in place. Nothing else changes.
    pub fn get_map_mut(&mut self) -> (m: &mut TileMap)
        ensures
            *m == old(self).overworld(),
            final(self).overworld() == *final(m),
            final(self).map_replaced(*old(self), *final(m)),
            old(self).wf() ==> final(self).wf(),
            final(self).id() == old(self).id(),
            final(self).name_view() == old(self).name_view(),
            final(self).ids() == old(self).ids(),
            final(self).infos() == old(self).infos(),
    {
        &mut self.map
    }

    /// Whether this region is `prev` with the site under `sid` replaced by `site`.
    pub open spec fn site_replaced(&self, prev: Region, sid: SiteId, site: Site) -> bool {
        &&& self.id() == prev.id()
        &&& self.name_view() == prev.name_view()
        &&& self.overworld() == prev.overworld()
        &&& self.ids() == prev.ids()
        &&& self.infos() == prev.infos().update(
            prev.ids().index_of(sid),
            SiteInfo { site, pos: prev.site_info(sid).pos },
        )
    }

    /// Whether this region is `prev` with its own grid replaced by `map`.
    pub open spec fn map_replaced(&self, prev: Region, map: TileMap) -> bool {
        &&& self.id() == prev.id()
        &&& self.name_view() == prev.name_view()
        &&& self.overworld() == map
        &&& self.ids() == prev.ids()
        &&& self.infos() == prev.infos()
    }

    /// Whether this region is `prev` stored under the handle `rid`: its sites keep their kinds,
    /// numbers, places and order, and their identifiers name `rid`.
    pub open spec fn admitted(&self, prev: Region, rid: RegionId) -> bool {
        &&& self.id() == rid
        &&& self.name_view() == prev.name_view()
        &&& self.overworld() == prev.overworld()
        &&& self.ids() == renamed(prev.ids(), rid)
        &&& self.infos() == prev.infos()
    }

    /// Adds a site of the given kind at the given place. The new identifier carries the
    /// smallest number that no stored site of this kind has.
    pub fn add_site(&mut self, site: Site, kind: SiteKind, pos: Vec2d) -> (r: Option<SiteId>)
        requires
            old(self).wf(),
            old(self).ids().len() < u32::MAX,
        ensures
            final(self).wf(),
            r.is_some(),
            r.unwrap().rid == old(self).id(),
            r.unwrap().kind == kind,
            !old(self).has_site(r.unwrap()),
            numbers_taken(old(self).ids(), old(self).id(), kind, r.unwrap().n as int),
            final(self).id() == old(self).id(),
            final(self).name_view() == old(self).name_view(),
            final(self).overworld() == old(self).overworld(),
            final(self).ids() == old(self).ids().push(r.unwrap()),
            final(self).infos() == old(self).infos().push(SiteInfo { site, pos }),
            final(self).has_site(r.unwrap()),
            final(self).site_info(r.unwrap()) == (SiteInfo { site, pos }),
            forall|k: SiteKind|
                #[trigger] final(self).site_count(k) == old(self).site_count(k) + (if k == kind {
                    1nat
                } else {
                    0nat
                }),
            old(self).packed() ==> r.unwrap().n == old(self).site_count(kind)
                && final(self).packed(),
            !old(self).occupied(pos) ==> final(self).id_at(pos) == r,
            old(self).occupied(pos) ==> final(self).id_at(pos) == old(self).id_at(pos),
    {
        let n = self.search_empty_n(kind);
        let sid = SiteId { rid: self.id, kind, n };
        let site_info = SiteInfo { site, pos };
        self.sites.push(SiteSlot { kind, n, info: site_info });
        proof {
            let before = *old(self);
            let after = *self;
            assert(after.ids() =~= before.ids().push(sid));
            assert(after.infos() =~= before.infos().push(SiteInfo { site, pos }));
            lemma_push_member(before, after, sid, SiteInfo { site, pos });
            lemma_push_count(before, after, sid);
            lemma_push_place(before.ids(), before.infos(), sid, SiteInfo { site, pos });
        }
        Some(sid)
    }

    /// The identifiers of the stored sites, oldest first.
    pub fn site_ids(&self) -> (r: Vec<SiteId>)
        ensures
            r@ == self.ids(),
    {
        let mut r: Vec<SiteId> = Vec::new();
        let mut i: usize = 0;
        while i < self.sites.len()
            invariant
                i <= self.sites@.len(),
                r@ == self.ids().take(i as int),
            decreases self.sites@.len() - i,
        {
            r.push(SiteId { rid: self.id, kind: self.sites[i].kind, n: self.sites[i].n });
            i = i + 1;
            assert(r@ =~= self.ids().take(i as int));
        }
        assert(self.ids().take(i as int) =~= self.ids());
        r
    }

    /// Stores a site under a number that is given, as when a saved region is rebuilt. Where
    /// a site of this kind has the number already, nothing changes and the answer is `false`.
    pub fn restore_site(&mut self, kind: SiteKind, n: u32, site: Site, pos: Vec2d) -> (stored: bool)
        requires
            old(self).wf(),
            old(self).ids().len() < u32::MAX,
        ensures
            final(self).wf(),
            stored == !old(self).has_site(SiteId { rid: old(self).id(), kind, n }),
            final(self).id() == old(self).id(),
            final(self).name_view() == old(self).name_view(),
            final(self).overworld() == old(self).overworld(),
            stored ==> final(self).ids() == old(self).ids().push(
                SiteId { rid: old(self).id(), kind, n },
            ) && final(self).infos() == old(self).infos().push(SiteInfo { site, pos }),
            !stored ==> final(self).ids() == old(self).ids() && final(self).infos() == old(self).infos(),
    {
        if self.slot_taken(kind, n) {
            return false;
        }
        self.sites.push(SiteSlot { kind, n, info: SiteInfo { site, pos } });
        proof {
            let sid = SiteId { rid: self.id, kind, n };
            assert(self.ids() =~= old(self).ids().push(sid));
            assert(self.infos() =~= old(self).infos().push(SiteInfo { site, pos }));
            lemma_push_member(*old(self), *self, sid, SiteInfo { site, pos });
        }
        true
    }

    /// The number of stored sites of `kind`.
    pub fn get_site_n(&self, kind: SiteKind) -> (n: u32)
        requires
            self.wf(),
        ensures
            n == self.site_count(kind),
    {
        let ghost of_kind = |s: SiteId| s.kind == kind;
        let mut count: u32 = 0;
        let mut i: usize = 0;
        proof {
            assert(self.ids().take(0) =~= Seq::<SiteId>::empty());
            self.ids().take(0).lemma_filter_len(of_kind);
        }
        while i < self.sites.len()
            invariant
                self.wf(),
                i <= self.sites@.len(),
                self.sites@.len() == self.ids().len(),
                of_kind == |s: SiteId| s.kind == kind,
                count == self.ids().take(i as int).filter(of_kind).len(),
                count <= i,
            decreases self.sites@.len() - i,
        {
            proof {
                assert(self.ids().take(i + 1) =~= self.ids().take(i as int).push(self.ids()[i as int]));
                self.ids().take(i as int).lemma_filter_len_push(of_kind, self.ids()[i as int]);
            }
            if self.sites[i].kind == kind {
                count = count + 1;
            }
            i = i + 1;
        }
        proof {
            assert(self.ids().take(i as int) =~= self.ids());
        }
        count
    }

    /// The identifier of the oldest site that stands at `pos`, if a site stands there.
    pub fn get_id_by_pos(&self, pos: Vec2d) -> (r: Option<SiteId>)
        requires
            self.wf(),
        ensures
            r == self.id_at(pos),
            r.is_some() <==> self.occupied(pos),
            r.is_some() ==> self.has_site(r.unwrap()) && self.site_info(r.unwrap()).pos == pos,
            r.is_none() ==> forall|sid: SiteId| #[trigger]
                self.has_site(sid) ==> self.site_info(sid).pos != pos,
    {
        let mut i: usize = 0;
        while i < self.sites.len()
            invariant
                i <= self.sites@.len(),
                self.wf(),
                self.sites@.len() == self.infos().len(),
                forall|j: int| 0 <= j < i ==> !#[trigger] site_at(self.infos(), j, pos),
            decreases self.sites@.len() - i,
        {
            if self.sites[i].info.pos == pos {
                let sid = SiteId { rid: self.id, kind: self.sites[i].kind, n: self.sites[i].n };
                proof {
                    assert(site_at(self.infos(), i as int, pos));
                    lemma_first_at(self.infos(), pos, i as int);
                    assert(self.ids()[i as int] == sid);
                    let k = self.ids().index_of(sid);
                    assert(self.ids()[k] == sid);
                    assert(k == i);
                }
                return Some(sid);
            }
            i = i + 1;
        }
        proof {
            assert forall|sid: SiteId| #[trigger] self.has_site(sid) implies self.site_info(
                sid,
            ).pos != pos by {
                let k = self.ids().index_of(sid);
                assert(!site_at(self.infos(), k, pos));
            }
        }
        None
    }

    /// Where in the store the site under `sid` lies, if it is stored.
    fn position(&self, sid: SiteId) -> (r: Option<usize>)
        requires
            self.wf(),
        ensures
            r.is_some() <==> self.has_site(sid),
            r.is_some() ==> r.unwrap() < self.sites@.len() && r.unwrap() == self.ids().index_of(
                sid,
            ) && self.ids()[r.unwrap() as int] == sid,
    {
        if sid.rid != self.id {
            return None;
        }
        let mut i: usize = 0;
        while i < self.sites.len()
            invariant
                i <= self.sites@.len(),
                sid.rid == self.id,
                self.wf(),
                forall|j: int| 0 <= j < i ==> self.ids()[j] != sid,
            decreases self.sites@.len() - i,
        {
            if self.sites[i].kind == sid.kind && self.sites[i].n == sid.n {
                assert(self.ids()[i as int] == sid);
                return Some(i);
            }
            i = i + 1;
        }
        None
    }

    /// The site stored under `sid` and its place, if there is one.
    pub fn find_site(&self, sid: SiteId) -> (r: Option<&SiteInfo>)
        requires
            self.wf(),
        ensures
            r.is_some() <==> self.has_site(sid),
            r.is_some() ==> *r.unwrap() == self.site_info(sid),
    {
        match self.position(sid) {
            Some(i) => Some(&self.sites[i].info),
            None => None,
        }
    }

    /// The site stored under `sid`, if there is one, to be changed in place. Its place and
    /// everything else in the region stay as they are.
    pub fn find_site_mut(&mut self, sid: SiteId) -> (r: Option<&mut Site>)
        requires
            old(self).wf(),
        ensures
            r.is_some() <==> old(self).has_site(sid),
            match r {
                Some(site) => *site == old(self).site_info(sid).site && final(self).site_replaced(
                    *old(self),
                    sid,
                    *final(site),
                ) && final(self).wf(),
                None => *final(self) == *old(self),
            },
    {
        match self.position(sid) {
            Some(i) => {
                let site = &mut self.sites[i].info.site;
                proof {
                    let before = *old(self);
                    let after = after_borrow(*self);
                    assert(after.ids() =~= before.ids());
                    assert(after.infos() =~= before.infos().update(
                        i as int,
                        SiteInfo { site: *final(site), pos: before.site_info(sid).pos },
                    ));
                }
                Some(site)
            },
            None => None,
        }
    }

    /// Stores the handle under which a holder keeps the region.
    pub(crate) fn set_id(&mut self, rid: RegionId)
        requires
            old(self).wf(),
        ensures
            final(self).wf(),
            final(self).admitted(*old(self), rid),
    {
        self.id = rid;
        proof {
            let before = *old(self);
            let after = *self;
            assert(after.ids() =~= renamed(before.ids(), rid));
            assert(after.infos() =~= before.infos());
            assert forall|i: int, j: int|
                0 <= i < after.ids().len() && 0 <= j < after.ids().len() && i != j implies after.ids()[i]
                != after.ids()[j] by {
                assert(before.ids()[i] != before.ids()[j]);
            }
        }
    }

    /// The smallest number that no stored site of `kind` carries.
    fn search_empty_n(&self, kind: SiteKind) -> (n: u32)
        requires
            self.wf(),
            self.ids().len() < u32::MAX,
        ensures
            !self.has_site(SiteId { rid: self.id(), kind, n }),
            numbers_taken(self.ids(), self.id(), kind, n as int),
            n <= self.ids().len(),
    {
        let mut n: u32 = 0;
        loop
            invariant
                self.wf(),
                self.ids().len() < u32::MAX,
                numbers_taken(self.ids(), self.id(), kind, n as int),
                n <= self.ids().len(),
            decreases self.ids().len() - n,
        {
            if !self.slot_taken(kind, n) {
                return n;
            }
            proof {
                assert(numbers_taken(self.ids(), self.id(), kind, n + 1)) by {
                    assert forall|m: u32| m < n + 1 implies #[trigger] self.ids().contains(
                        SiteId { rid: self.id(), kind, n: m },
                    ) by {
                        if m < n {
                        } else {
                            assert(m == n);
                        }
                    }
                }
                lemma_numbers_taken_len(self.ids(), self.id(), kind, n + 1);
            }
            n = n + 1;
        }
    }

    /// Whether a stored site of `kind` carries the number `n`.
    fn slot_taken(&self, kind: SiteKind, n: u32) -> (b: bool)
        ensures
            b == self.has_site(SiteId { rid: self.id(), kind, n }),
    {
        let mut i: usize = 0;
        while i < self.sites.len()
            invariant
                i <= self.sites@.len(),
                forall|j: int| 0 <= j < i ==> self.ids()[j] != (SiteId { rid: self.id(), kind, n }),
            decreases self.sites@.len() - i,
        {
            if self.sites[i].kind == kind && self.sites[i].n == n {
                assert(self.ids()[i as int] == (SiteId { rid: self.id(), kind, n }));
                return true;
            }
            i = i + 1;
        }
        false
    }
}

/// A holder stays well formed when one of its regions is replaced by a well-formed region
/// with the same handle.
proof fn lemma_region_changed(prev: RegionHolder, next: RegionHolder, rid: RegionId)
    requires
        prev.wf(),
        prev.has_region(rid),
        next@ == prev@.insert(rid, next@[rid]),
        next@[rid].wf(),
        next@[rid].id() == rid,
    ensures
        next.wf(),
        next.differs_at(prev, rid),
{
    assert forall|r: RegionId| #[trigger] next.has_region(r) implies next@[r].wf() && next@[r].id()
        == r by {
        if r != rid {
            assert(prev.has_region(r));
        }
    }
}

impl View for RegionHolder {
    type V = Map<RegionId, Region>;

    /// The regions as a mapping from handle to region.
    closed spec fn view(&self) -> Map<RegionId, Region> {
        Map::new(|rid: RegionId| self.0@.contains_key(rid.0), |rid: RegionId| self.0@[rid.0])
    }
}

impl RegionHolder {
    /// Whether a region is stored under `rid`.
    #[verifier::inline]
    pub open spec fn has_region(&self, rid: RegionId) -> bool {
        self@.contains_key(rid)
    }

    /// The invariant of a holder: every region is well formed and carries the handle under
    /// which it is stored.
    pub open spec fn wf(&self) -> bool {
        forall|rid: RegionId| #[trigger]
            self.has_region(rid) ==> self@[rid].wf() && self@[rid].id() == rid
    }

    /// Whether the handles in use are exactly the `n` smallest.
    pub open spec fn holds_first(&self, n: nat) -> bool {
        forall|k: u32| #[trigger] self.has_region(RegionId(k)) <==> k < n
    }

    /// Whether a site is stored under `sid`, in the region that `sid` names.
    pub open spec fn has_site(&self, sid: SiteId) -> bool {
        self.has_region(sid.rid) && self@[sid.rid].has_site(sid)
    }

    /// What is stored under `sid`.
    pub open spec fn site_info(&self, sid: SiteId) -> SiteInfo
        recommends
            self.has_site(sid),
    {
        self@[sid.rid].site_info(sid)
    }

    /// The grid that `mid` addresses, if it addresses one: a region's own grid, or a floor
    /// of a site.
    pub open spec fn map_at(&self, mid: MapId) -> Option<TileMap> {
        match mid {
            MapId::RegionMap { rid } => if self.has_region(rid) {
                Some(self@[rid].overworld())
            } else {
                None
            },
            MapId::SiteMap { sid, floor } => if self.has_site(sid) && self.site_info(
                sid,
            ).site.has_floor(floor) {
                Some(self.site_info(sid).site.floor_map(floor))
            } else {
                None
            },
        }
    }

    /// Why `sid` resolves to no site, if it does not: its region is looked for first, then
    /// the site in that region.
    pub open spec fn site_failure(&self, sid: SiteId) -> Option<UnknownId> {
        if !self.has_region(sid.rid) {
            Some(UnknownId::Region(sid.rid))
        } else if !self.has_site(sid) {
            Some(UnknownId::Site(sid))
        } else {
            None
        }
    }

    /// Why `mid` resolves to no grid, if it does not: the region, the site and the floor are
    /// looked for in this order.
    pub open spec fn map_failure(&self, mid: MapId) -> Option<UnknownId> {
        match mid {
            MapId::RegionMap { rid } => if self.has_region(rid) {
                None
            } else {
                Some(UnknownId::Region(rid))
            },
            MapId::SiteMap { sid, floor } => if self.site_failure(sid).is_some() {
                self.site_failure(sid)
            } else if !self.site_info(sid).site.has_floor(floor) {
                Some(UnknownId::Floor(mid))
            } else {
                None
            },
        }
    }

    /// Whether this holder is `prev` but for the region under `rid`, which both hold.
    pub open spec fn differs_at(&self, prev: RegionHolder, rid: RegionId) -> bool {
        &&& self.has_region(rid)
        &&& prev.has_region(rid)
        &&& forall|r: RegionId| self.has_region(r) == #[trigger] prev.has_region(r)
        &&& forall|r: RegionId| r != rid && #[trigger] prev.has_region(r) ==> self@[r] == prev@[r]
    }

    /// Whether this holder is `prev` with the grid that `mid` addresses replaced by `map`.
    pub open spec fn map_replaced(&self, prev: RegionHolder, mid: MapId, map: TileMap) -> bool {
        match mid {
            MapId::RegionMap { rid } => self.differs_at(prev, rid) && self@[rid].map_replaced(
                prev@[rid],
                map,
            ),
            MapId::SiteMap { sid, floor } => {
                &&& self.differs_at(prev, sid.rid)
                &&& self.has_site(sid)
                &&& self@[sid.rid].site_replaced(prev@[sid.rid], sid, self.site_info(sid).site)
                &&& self.site_info(sid).site.name == prev.site_info(sid).site.name
                &&& self.site_info(sid).site.map@ == prev.site_info(sid).site.map@.update(
                    floor as int,
                    map,
                )
            },
        }
    }

    /// A holder without regions.
    pub fn new() -> (h: RegionHolder)
        ensures
            h@ == Map::<RegionId, Region>::empty(),
            h.wf(),
            h.holds_first(0),
    {
        let h = RegionHolder(HashMap::new());
        assert(h@ =~= Map::<RegionId, Region>::empty());
        h
    }

    /// The region under `rid`, which must be stored.
    pub fn get(&self, rid: RegionId) -> (r: &Region)
        requires
            self.has_region(rid),
        ensures
            *r == self@[rid],
    {
        broadcast use vstd::std_specs::hash::group_hash_axioms;

        match self.0.get(&rid.0) {
            Some(r) => r,
            None => vstd::pervasive::unreached(),
        }
    }

    /// The region under `rid`, which must be stored, to be changed in place.
    pub fn get_mut(&mut self, rid: RegionId) -> (r: &mut Region)
        requires
            old(self).has_region(rid),
        ensures
            *r == old(self)@[rid],
            final(self)@ == old(self)@.insert(rid, *final(r)),
            old(self).wf() && final(r).wf() && final(r).id() == rid ==> final(self).wf(),
    {
        match self.get_mut_checked(rid) {
            Some(r) => r,
            None => vstd::pervasive::unreached(),
        }
    }

    /// The region under `rid`, if one is stored.
    pub fn get_checked(&self, rid: RegionId) -> (r: Option<&Region>)
        ensures
            r.is_some() <==> self.has_region(rid),
            r.is_some() ==> *r.unwrap() == self@[rid],
    {
        broadcast use vstd::std_specs::hash::group_hash_axioms;

        self.0.get(&rid.0)
    }

    /// The region under `rid`, if one is stored, to be changed in place.
    pub fn get_mut_checked(&mut self, rid: RegionId) -> (r: Option<&mut Region>)
        ensures
            r.is_some() <==> old(self).has_region(rid),
            match r {
                Some(region) => *region == old(self)@[rid] && final(self)@ == old(self)@.insert(
                    rid,
                    *final(region),
                ),
                None => final(self)@ == old(self)@,
            },
    {
        broadcast use vstd::std_specs::hash::group_hash_axioms;

        match self.0.entry(rid.0) {
            Entry::Occupied(e) => {
                let region = e.into_mut();
                proof {
                    assert(after_borrow(*self)@ =~= old(self)@.insert(rid, *final(region)));
                }
                Some(region)
            },
            Entry::Vacant(_) => {
                proof {
                    assert(after_borrow(*self)@ =~= old(self)@);
                }
                None
            },
        }
    }

    /// The site under `sid`, which must be stored.
    pub fn get_site(&self, sid: SiteId) -> (site: &Site)
        requires
            self.wf(),
            self.has_site(sid),
        ensures
            *site == self.site_info(sid).site,
    {
        let region = self.get(sid.rid);
        match region.find_site(sid) {
            Some(info) => &info.site,
            None => vstd::pervasive::unreached(),
        }
    }

    /// The site under `sid`, which must be stored, to be changed in place. Its place and all
    /// else stay as they are.
    pub fn get_site_mut(&mut self, sid: SiteId) -> (site: &mut Site)
        requires
            old(self).wf(),
            old(self).has_site(sid),
        ensures
            *site == old(self).site_info(sid).site,
            final(self).wf(),
            final(self).differs_at(*old(self), sid.rid),
            final(self)@[sid.rid].site_replaced(old(self)@[sid.rid], sid, *final(site)),
    {
        let region = self.get_mut(sid.rid);
        match region.find_site_mut(sid) {
            Some(site) => {
                proof {
                    lemma_region_changed(*old(self), after_borrow(*self), sid.rid);
                }
                site
            },
            None => vstd::pervasive::unreached(),
        }
    }

    /// The place of the site under `sid`, which must be stored.
    pub fn get_site_pos(&self, sid: SiteId) -> (pos: Vec2d)
        requires
            self.wf(),
            self.has_site(sid),
        ensures
            pos == self.site_info(sid).pos,
    {
        let region = self.get(sid.rid);
        match region.find_site(sid) {
            Some(info) => info.pos,
            None => vstd::pervasive::unreached(),
        }
    }

    /// The grid that `mid` addresses, which must be stored.
    pub fn get_map(&self, mid: MapId) -> (m: &TileMap)
        requires
            self.wf(),
            self.map_at(mid).is_some(),
        ensures
            *m == self.map_at(mid).unwrap(),
    {
        match mid {
            MapId::SiteMap { sid, floor } => self.get_site(sid).get_map(floor),
            MapId::RegionMap { rid } => self.get(rid).get_map(),
        }
    }

    /// The grid that `mid` addresses, which must be stored, to be changed in place.
    pub fn get_map_mut(&mut self, mid: MapId) -> (m: &mut TileMap)
        requires
            old(self).wf(),
            old(self).map_at(mid).is_some(),
        ensures
            *m == old(self).map_at(mid).unwrap(),
            final(self).wf(),
            final(self).map_replaced(*old(self), mid, *final(m)),
    {
        match mid {
            MapId::SiteMap { sid, floor } => self.get_site_mut(sid).get_map_mut(floor),
            MapId::RegionMap { rid } => {
                let region = self.get_mut(rid);
                let m = region.get_map_mut();
                proof {
                    lemma_region_changed(*old(self), after_borrow(*self), rid);
                }
                m
            },
        }
    }

    /// The site under `sid`, if one is stored; `None` where the region or the site is missing.
    pub fn get_site_checked(&self, sid: SiteId) -> (site: Option<&Site>)
        requires
            self.wf(),
        ensures
            site.is_some() <==> self.has_site(sid),
            site.is_some() ==> *site.unwrap() == self.site_info(sid).site,
    {
        match self.get_checked(sid.rid) {
            Some(region) => match region.find_site(sid) {
                Some(info) => Some(&info.site),
                None => None,
            },
            None => None,
        }
    }

    /// The site under `sid`, if one is stored, to be changed in place.
    pub fn get_site_mut_checked(&mut self, sid: SiteId) -> (site: Option<&mut Site>)
        requires
            old(self).wf(),
        ensures
            site.is_some() <==> old(self).has_site(sid),
            match site {
                Some(s) => *s == old(self).site_info(sid).site && final(self).wf() && final(self).differs_at(*old(self), sid.rid) && final(self)@[sid.rid].site_replaced(
                    old(self)@[sid.rid],
                    sid,
                    *final(s),
                ),
                None => final(self)@ == old(self)@,
            },
    {
        match self.get_mut_checked(sid.rid) {
            Some(region) => {
                let found = region.find_site_mut(sid);
                proof {
                    if found.is_some() {
                        lemma_region_changed(*old(self), after_borrow(*self), sid.rid);
                    } else {
                        assert(after_borrow(*self)@ =~= old(self)@);
                    }
                }
                found
            },
            None => None,
        }
    }

    /// The grid that `mid` addresses, if it is stored.
    pub fn get_map_checked(&self, mid: MapId) -> (m: Option<&TileMap>)
        requires
            self.wf(),
        ensures
            m.is_some() <==> self.map_at(mid).is_some(),
            m.is_some() ==> *m.unwrap() == self.map_at(mid).unwrap(),
    {
        match mid {
            MapId::SiteMap { sid, floor } => {
                match self.get_site_checked(sid) {
                    Some(site) => site.get_map_checked(floor),
                    None => None,
                }
            },
            MapId::RegionMap { rid } => {
                match self.get_checked(rid) {
                    Some(region) => Some(region.get_map()),
                    None => None,
                }
            },
        }
    }

    /// The grid that `mid` addresses, if it is stored. It reads only, as `get_map_checked` does.
    pub fn get_map_checked_mut(&self, mid: MapId) -> (m: Option<&TileMap>)
        requires
            self.wf(),
        ensures
            m.is_some() <==> self.map_at(mid).is_some(),
            m.is_some() ==> *m.unwrap() == self.map_at(mid).unwrap(),
    {
        self.get_map_checked(mid)
    }

    /// The grid that `mid` addresses, if it is stored, to be changed in place.
    pub fn get_map_mut_checked(&mut self, mid: MapId) -> (m: Option<&mut TileMap>)
        requires
            old(self).wf(),
        ensures
            m.is_some() <==> old(self).map_at(mid).is_some(),
            match m {
                Some(r) => *r == old(self).map_at(mid).unwrap() && final(self).wf() && final(self).map_replaced(*old(self), mid, *final(r)),
                None => *final(self) == *old(self),
            },
    {
        if self.get_map_checked(mid).is_none() {
            return None;
        }
        Some(self.get_map_mut(mid))
    }

    /// The region under `rid`, or the handle where no region is stored under it.
    pub fn try_get(&self, rid: RegionId) -> (r: Result<&Region, UnknownId>)
        ensures
            r.is_ok() <==> self.has_region(rid),
            r.is_ok() ==> *r.unwrap() == self@[rid],
            r.is_err() ==> r.unwrap_err() == UnknownId::Region(rid),
    {
        match self.get_checked(rid) {
            Some(region) => Ok(region),
            None => Err(UnknownId::Region(rid)),
        }
    }

    /// The site under `sid`, or the identifier that could not be resolved: the handle of the
    /// region where it is missing, else the identifier of the site.
    pub fn try_get_site(&self, sid: SiteId) -> (r: Result<&Site, UnknownId>)
        requires
            self.wf(),
        ensures
            r.is_ok() <==> self.has_site(sid),
            r.is_ok() ==> *r.unwrap() == self.site_info(sid).site,
            r.is_err() ==> self.site_failure(sid) == Some(r.unwrap_err()),
    {
        match self.get_checked(sid.rid) {
            Some(region) => match region.find_site(sid) {
                Some(info) => Ok(&info.site),
                None => Err(UnknownId::Site(sid)),
            },
            None => Err(UnknownId::Region(sid.rid)),
        }
    }

    /// The place of the site under `sid`, or the identifier that could not be resolved.
    pub fn try_get_site_pos(&self, sid: SiteId) -> (r: Result<Vec2d, UnknownId>)
        requires
            self.wf(),
        ensures
            r.is_ok() <==> self.has_site(sid),
            r.is_ok() ==> r.unwrap() == self.site_info(sid).pos,
            r.is_err() ==> self.site_failure(sid) == Some(r.unwrap_err()),
    {
        match self.get_checked(sid.rid) {
            Some(region) => match region.find_site(sid) {
                Some(info) => Ok(info.pos),
                None => Err(UnknownId::Site(sid)),
            },
            None => Err(UnknownId::Region(sid.rid)),
        }
    }

    /// The grid that `mid` addresses, or the identifier that could not be resolved.
    pub fn try_get_map(&self, mid: MapId) -> (r: Result<&TileMap, UnknownId>)
        requires
            self.wf(),
        ensures
            r.is_ok() <==> self.map_at(mid).is_some(),
            r.is_ok() ==> *r.unwrap() == self.map_at(mid).unwrap(),
            r.is_err() ==> self.map_failure(mid) == Some(r.unwrap_err()),
    {
        match mid {
            MapId::SiteMap { sid, floor } => match self.try_get_site(sid) {
                Ok(site) => match site.get_map_checked(floor) {
                    Some(m) => Ok(m),
                    None => Err(UnknownId::Floor(mid)),
                },
                Err(e) => Err(e),
            },
            MapId::RegionMap { rid } => match self.try_get(rid) {
                Ok(region) => Ok(region.get_map()),
                Err(e) => Err(e),
            },
        }
    }

    /// The handles in use, in no particular order.
    pub fn region_ids(&self) -> (r: Vec<RegionId>)
        ensures
            r@.no_duplicates(),
            forall|rid: RegionId| r@.contains(rid) <==> self.has_region(rid),
    {
        broadcast use vstd::std_specs::hash::group_hash_axioms;

        let mut r: Vec<RegionId> = Vec::new();
        let ghost keys = vstd::std_specs::hash::spec_keys_iter(&self.0).remaining();
        for k in it: self.0.keys()
            invariant
                it.seq() == keys,
                r@.len() == it.index(),
                forall|j: int| 0 <= j < r@.len() ==> r@[j] == RegionId(*keys[j]),
        {
            r.push(RegionId(*k));
        }
        proof {
            let plain = keys.unref();
            assert(plain.to_set() == self.0@.dom());
            assert forall|i: int, j: int| 0 <= i < r@.len() && 0 <= j < r@.len() && i != j implies r@[i]
                != r@[j] by {
                assert(keys[i] != keys[j]);
            }
            assert forall|rid: RegionId| r@.contains(rid) <==> self.has_region(rid) by {
                if r@.contains(rid) {
                    let j = choose|j: int| 0 <= j < r@.len() && r@[j] == rid;
                    assert(plain[j] == rid.0);
                    assert(plain.to_set().contains(rid.0));
                }
                if self.has_region(rid) {
                    assert(plain.to_set().contains(rid.0));
                    let j = choose|j: int| 0 <= j < plain.len() && plain[j] == rid.0;
                    assert(r@[j] == rid);
                }
            }
        }
        r
    }

    /// Stores a region under a handle that is given, as when a saved world is rebuilt, and
    /// writes the handle into the region. Where the handle is in use, nothing changes and
    /// the answer is `false`.
    pub fn restore_region(&mut self, rid: RegionId, region: Region) -> (stored: bool)
        requires
            old(self).wf(),
            region.wf(),
        ensures
            final(self).wf(),
            stored == !old(self).has_region(rid),
            stored ==> final(self).has_region(rid) && final(self)@[rid].admitted(region, rid),
            stored && region.packed() ==> final(self)@[rid].packed(),
            forall|r: RegionId| #[trigger]
                final(self).has_region(r) <==> old(self).has_region(r) || r == rid,
            forall|r: RegionId| #[trigger]
                old(self).has_region(r) ==> final(self)@[r] == old(self)@[r],
    {
        broadcast use vstd::std_specs::hash::group_hash_axioms;

        if self.0.contains_key(&rid.0) {
            return false;
        }
        let mut entering = region;
        entering.set_id(rid);
        let ghost stored = entering;
        self.0.insert(rid.0, entering);
        proof {
            assert(self@[rid] == stored);
            lemma_admitted_keeps_numbers(region, stored, rid);
            assert forall|r: RegionId| #[trigger] self.has_region(r) implies self@[r].wf()
                && self@[r].id() == r by {
                if r != rid {
                    assert(old(self).has_region(r));
                    assert(self@[r] == old(self)@[r]);
                }
            }
        }
        true
    }

    /// Admits a region: stores it under the smallest handle that is not in use, writes that
    /// handle into the region, and returns it.
    pub fn add_region(&mut self, region: Region) -> (rid: RegionId)
        requires
            old(self).wf(),
            region.wf(),
            exists|k: u32| !old(self).has_region(RegionId(k)),
        ensures
            final(self).wf(),
            !old(self).has_region(rid),
            final(self).has_region(rid),
            forall|k: u32| k < rid.0 ==> old(self).has_region(RegionId(k)),
            forall|r: RegionId| #[trigger] final(self).has_region(r) <==> old(self).has_region(r) || r == rid,
            forall|r: RegionId| #[trigger] old(self).has_region(r) ==> final(self)@[r] == old(self)@[r],
            final(self)@[rid].admitted(region, rid),
            region.packed() ==> final(self)@[rid].packed(),
            forall|n: nat| #[trigger]
                old(self).holds_first(n) ==> rid.0 == n && final(self).holds_first(n + 1),
    {
        broadcast use vstd::std_specs::hash::group_hash_axioms;

        let ghost free = choose|k: u32| !old(self).has_region(RegionId(k));
        let mut entering = region;
        let mut i: u32 = 0;
        loop
            invariant
                *self == *old(self),
                self.wf(),
                entering == region,
                entering.wf(),
                !self.has_region(RegionId(free)),
                forall|k: u32| k < i ==> self.has_region(RegionId(k)),
            decreases u32::MAX - i,
        {
            if !self.0.contains_key(&i) {
                let rid = RegionId(i);
                entering.set_id(rid);
                let ghost stored = entering;
                self.0.insert(i, entering);
                proof {
                    assert(self@[rid] == stored);
                    lemma_admitted_keeps_numbers(region, stored, rid);
                    assert forall|r: RegionId| #[trigger] self.has_region(r) implies self@[r].wf()
                        && self@[r].id() == r by {
                        if r != rid {
                            assert(old(self).has_region(r));
                            assert(self@[r] == old(self)@[r]);
                        }
                    }
                    assert forall|n: nat| #[trigger] old(self).holds_first(n) implies rid.0 == n
                        && self.holds_first(n + 1) by {
                        if i < n {
                            assert(old(self).has_region(RegionId(i)));
                        }
                        if n < i {
                            assert(old(self).has_region(RegionId(n as u32)));
                        }
                        assert forall|k: u32| #[trigger] self.has_region(RegionId(k)) <==> k < n + 1 by {
                            assert(old(self).has_region(RegionId(k)) <==> k < n);
                        }
                    }
                }
                return rid;
            }
            assert(self.has_region(RegionId(i)));
            assert(i != free);
            assert(i < free) by {
                if free < i {
                    assert(self.has_region(RegionId(free)));
                }
            }
            i = i + 1;
        }
    }
}

} // verus!
