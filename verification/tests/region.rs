use rusted_ruins::geom::Vec2d;
use rusted_ruins::region::{Region, RegionHolder, RegionId, UnknownId};
use rusted_ruins::site::{Site, SiteId, SiteKind};
use rusted_ruins::tilemap::{MapId, TileMap};

fn grid(w: u32, h: u32, fill: u32) -> TileMap {
    let mut tile = Vec::new();
    for _ in 0..(w * h) {
        tile.push(fill);
    }
    TileMap::new(w, h, tile)
}

fn town(floors: u32) -> Site {
    let mut site = Site::new("town");
    for f in 0..floors {
        assert_eq!(site.add_map(grid(2, 2, 100 + f)), f);
    }
    site
}

#[test]
fn region_id_default_is_zero() {
    assert_eq!(RegionId::default(), RegionId(0));
}

#[test]
fn new_region_is_empty_and_carries_the_default_handle() {
    let r = Region::new("Eastern Moor", grid(3, 3, 1));
    assert_eq!(r.name, "Eastern Moor");
    assert_eq!(r.get_id(), RegionId(0));
    assert_eq!(*r.get_map(), grid(3, 3, 1));
    assert_eq!(r.get_site_n(SiteKind::Town), 0);
    assert_eq!(r.get_id_by_pos(Vec2d(0, 0)), None);
}

#[test]
fn add_region_hands_out_the_smallest_unused_handles() {
    let mut holder = RegionHolder::new();
    let mut seen = Vec::new();
    for i in 0..6u32 {
        let rid = holder.add_region(Region::new("r", TileMap::empty()));
        assert_eq!(rid, RegionId(i));
        assert!(!seen.contains(&rid));
        seen.push(rid);
    }
}

#[test]
fn add_region_writes_the_handle_into_the_stored_region() {
    let mut holder = RegionHolder::new();
    holder.add_region(Region::new("first", TileMap::empty()));
    holder.add_region(Region::new("second", TileMap::empty()));
    let rid = holder.add_region(Region::new("third", grid(1, 1, 9)));
    assert_eq!(rid, RegionId(2));
    assert_eq!(holder.get(rid).name, "third");
    assert_eq!(holder.get(rid).get_id(), rid);
    assert_eq!(*holder.get(rid).get_map(), grid(1, 1, 9));
    let sid = holder.get_mut(rid).add_site(town(1), SiteKind::Town, Vec2d(1, 1)).unwrap();
    assert_eq!(sid.rid, rid);
    assert!(holder.get_site_checked(sid).is_some());
}

#[test]
fn sites_added_before_admission_follow_the_new_handle() {
    let mut holder = RegionHolder::new();
    holder.add_region(Region::new("first", TileMap::empty()));
    let mut region = Region::new("second", TileMap::empty());
    let early = region.add_site(town(1), SiteKind::Other, Vec2d(2, 3)).unwrap();
    assert_eq!(early, SiteId { rid: RegionId(0), kind: SiteKind::Other, n: 0 });
    let rid = holder.add_region(region);
    assert_eq!(rid, RegionId(1));
    let moved = SiteId { rid, kind: SiteKind::Other, n: 0 };
    assert_eq!(holder.get(rid).get_id_by_pos(Vec2d(2, 3)), Some(moved));
    assert_eq!(holder.get_site_pos(moved), Vec2d(2, 3));
    assert!(holder.get_site_checked(early).is_none());
}

#[test]
fn add_site_is_found_by_its_place_and_keeps_its_kind() {
    let kinds = [SiteKind::Start, SiteKind::AutoGenDungeon, SiteKind::Town, SiteKind::Other];
    let mut region = Region::new("r", TileMap::empty());
    for (i, kind) in kinds.iter().enumerate() {
        let pos = Vec2d(i as i32, -(i as i32));
        let sid = region.add_site(town(1), *kind, pos).unwrap();
        assert_eq!(sid.kind, *kind);
        assert_eq!(sid.rid, RegionId(0));
        assert_eq!(region.get_id_by_pos(pos), Some(sid));
    }
}

#[test]
fn numbers_of_one_kind_count_up_from_zero() {
    let mut region = Region::new("r", TileMap::empty());
    let mut seen = Vec::new();
    for k in 0..5u32 {
        assert_eq!(region.get_site_n(SiteKind::AutoGenDungeon), k);
        let sid = region.add_site(town(0), SiteKind::AutoGenDungeon, Vec2d(k as i32, 0)).unwrap();
        region.add_site(town(0), SiteKind::Town, Vec2d(k as i32, 1)).unwrap();
        assert_eq!(sid.n, k);
        assert!(!seen.contains(&sid.n));
        seen.push(sid.n);
    }
    assert_eq!(region.get_site_n(SiteKind::AutoGenDungeon), 5);
    assert_eq!(region.get_site_n(SiteKind::Town), 5);
    assert_eq!(region.get_site_n(SiteKind::Other), 0);
    seen.sort();
    assert_eq!(seen, vec![0, 1, 2, 3, 4]);
}

#[test]
fn first_site_at_a_place_is_the_one_found() {
    let mut region = Region::new("r", TileMap::empty());
    let a = region.add_site(town(0), SiteKind::Town, Vec2d(4, 4)).unwrap();
    let b = region.add_site(town(0), SiteKind::Other, Vec2d(4, 4)).unwrap();
    assert_ne!(a, b);
    assert_eq!(region.get_id_by_pos(Vec2d(4, 4)), Some(a));
}

#[test]
fn find_site_gives_site_and_place() {
    let mut region = Region::new("r", TileMap::empty());
    let a = region.add_site(town(2), SiteKind::Town, Vec2d(4, 5)).unwrap();
    let info = region.find_site(a).unwrap();
    assert_eq!(info.pos, Vec2d(4, 5));
    assert_eq!(info.site, town(2));
    assert!(region.find_site(SiteId { rid: RegionId(0), kind: SiteKind::Town, n: 1 }).is_none());
    assert!(region.find_site(SiteId { rid: RegionId(1), kind: SiteKind::Town, n: 0 }).is_none());
    region.find_site_mut(a).unwrap().add_map(grid(1, 1, 7));
    assert_eq!(region.find_site(a).unwrap().site.map.len(), 3);
    assert_eq!(region.find_site(a).unwrap().pos, Vec2d(4, 5));
    assert!(region.find_site_mut(SiteId { rid: RegionId(0), kind: SiteKind::Other, n: 0 }).is_none());
}

#[test]
fn region_map_can_be_changed_in_place() {
    let mut region = Region::new("r", grid(2, 2, 0));
    region.get_map_mut().tile[3] = 8;
    assert_eq!(region.get_map().tile, vec![0, 0, 0, 8]);
}

#[test]
fn checked_lookups_give_none_for_unknown_ids() {
    let mut holder = RegionHolder::new();
    assert!(holder.get_checked(RegionId(0)).is_none());
    let rid = holder.add_region(Region::new("r", grid(1, 1, 0)));
    let sid = holder.get_mut(rid).add_site(town(1), SiteKind::Town, Vec2d(0, 0)).unwrap();
    let other_region = SiteId { rid: RegionId(3), kind: SiteKind::Town, n: 0 };
    let other_kind = SiteId { rid, kind: SiteKind::Other, n: 0 };
    let other_n = SiteId { rid, kind: SiteKind::Town, n: 1 };
    assert!(holder.get_checked(RegionId(1)).is_none());
    assert!(holder.get_mut_checked(RegionId(1)).is_none());
    assert!(holder.get_checked(rid).is_some());
    assert!(holder.get_mut_checked(rid).is_some());
    for bad in [other_region, other_kind, other_n] {
        assert!(holder.get_site_checked(bad).is_none());
        assert!(holder.get_site_mut_checked(bad).is_none());
        assert!(holder.get_map_checked(MapId::SiteMap { sid: bad, floor: 0 }).is_none());
        assert!(holder.get_map_checked_mut(MapId::SiteMap { sid: bad, floor: 0 }).is_none());
        assert!(holder.get_map_mut_checked(MapId::SiteMap { sid: bad, floor: 0 }).is_none());
    }
    assert!(holder.get_map_checked(MapId::RegionMap { rid: RegionId(9) }).is_none());
    assert!(holder.get_map_mut_checked(MapId::RegionMap { rid: RegionId(9) }).is_none());
    assert!(holder.get_map_checked(MapId::SiteMap { sid, floor: 1 }).is_none());
    assert!(holder.get_map_mut_checked(MapId::SiteMap { sid, floor: 1 }).is_none());
    assert!(holder.get_map_checked(MapId::SiteMap { sid, floor: 0 }).is_some());
    assert!(holder.get_site_checked(sid).is_some());
}

#[test]
fn eastern_moor_scenario() {
    let overworld_map = grid(8, 8, 1);
    let mut holder = RegionHolder::new();
    let rid = holder.add_region(Region::new("Eastern Moor", overworld_map.clone()));
    assert_eq!(rid, RegionId(0));
    let town_site = town(2);
    let sid = holder.get_mut(rid).add_site(town_site.clone(), SiteKind::Town, Vec2d(5, 5));
    assert_eq!(sid, Some(SiteId { rid: RegionId(0), kind: SiteKind::Town, n: 0 }));
    let sid = sid.unwrap();
    assert_eq!(*holder.get_map(MapId::RegionMap { rid: RegionId(0) }), overworld_map);
    assert_eq!(*holder.get_map(MapId::SiteMap { sid, floor: 0 }), grid(2, 2, 100));
    assert_eq!(*holder.get_map(MapId::SiteMap { sid, floor: 1 }), grid(2, 2, 101));
    assert_eq!(*holder.get_site(sid), town_site);
    assert_eq!(holder.get_site_pos(sid), Vec2d(5, 5));
    assert_eq!(holder.get_map_checked(MapId::SiteMap { sid, floor: 0 }), Some(&grid(2, 2, 100)));
    assert_eq!(holder.get_map_checked(MapId::RegionMap { rid }), Some(&overworld_map));
}

#[test]
fn eastern_moor_lookup_by_place() {
    let mut holder = RegionHolder::new();
    let rid = holder.add_region(Region::new("Eastern Moor", grid(8, 8, 1)));
    holder.get_mut(rid).add_site(town(1), SiteKind::Town, Vec2d(5, 5));
    assert_eq!(
        holder.get(rid).get_id_by_pos(Vec2d(5, 5)),
        Some(SiteId { rid: RegionId(0), kind: SiteKind::Town, n: 0 })
    );
    assert_eq!(holder.get(rid).get_id_by_pos(Vec2d(5, 6)), None);
    assert_eq!(holder.get(rid).get_id_by_pos(Vec2d(0, 0)), None);
}

#[test]
fn maps_and_sites_can_be_changed_through_the_holder() {
    let mut holder = RegionHolder::new();
    let r0 = holder.add_region(Region::new("a", grid(1, 2, 0)));
    let r1 = holder.add_region(Region::new("b", grid(1, 2, 5)));
    let sid = holder.get_mut(r1).add_site(town(2), SiteKind::Town, Vec2d(0, 1)).unwrap();
    holder.get_map_mut(MapId::RegionMap { rid: r1 }).tile[0] = 6;
    holder.get_map_mut(MapId::SiteMap { sid, floor: 1 }).tile[2] = 77;
    holder.get_map_mut_checked(MapId::SiteMap { sid, floor: 0 }).unwrap().tile[0] = 55;
    holder.get_map_mut_checked(MapId::RegionMap { rid: r0 }).unwrap().w = 4;
    holder.get_site_mut(sid).name = String::from("harbour");
    holder.get_site_mut_checked(sid).unwrap().add_map(grid(1, 1, 3));
    assert_eq!(holder.get_map(MapId::RegionMap { rid: r1 }).tile, vec![6, 5]);
    assert_eq!(holder.get_map(MapId::RegionMap { rid: r0 }).w, 4);
    assert_eq!(holder.get_map(MapId::RegionMap { rid: r0 }).tile, vec![0, 0]);
    assert_eq!(holder.get_map(MapId::SiteMap { sid, floor: 1 }).tile, vec![101, 101, 77, 101]);
    assert_eq!(holder.get_map(MapId::SiteMap { sid, floor: 0 }).tile, vec![55, 100, 100, 100]);
    assert_eq!(*holder.get_map(MapId::SiteMap { sid, floor: 2 }), grid(1, 1, 3));
    assert_eq!(holder.get_site(sid).name, "harbour");
    assert_eq!(holder.get_site_pos(sid), Vec2d(0, 1));
    assert_eq!(holder.get(r1).get_site_n(SiteKind::Town), 1);
    assert_eq!(holder.get_mut(r0).get_id(), r0);
}

#[test]
fn site_floors_are_numbered_from_zero() {
    let mut site = Site::new("cave");
    assert!(site.get_map_checked(0).is_none());
    assert!(site.get_map_mut_checked(0).is_none());
    assert_eq!(site.add_map(grid(1, 1, 1)), 0);
    assert_eq!(site.add_map(grid(1, 1, 2)), 1);
    assert_eq!(*site.get_map(1), grid(1, 1, 2));
    assert_eq!(site.get_map_checked(0), Some(&grid(1, 1, 1)));
    assert!(site.get_map_checked(2).is_none());
    site.get_map_mut(0).h = 9;
    site.get_map_mut_checked(1).unwrap().w = 7;
    assert_eq!(site.get_map(0).h, 9);
    assert_eq!(site.get_map(1).w, 7);
    assert_eq!(site.name, "cave");
}

/// What a saved site holds: kind, number, place and site.
type SiteRecord = (SiteKind, u32, Vec2d, Site);

/// What a saved region holds.
type RegionRecord = (RegionId, String, TileMap, Vec<SiteRecord>);

fn records(holder: &RegionHolder) -> Vec<RegionRecord> {
    let mut ids = holder.region_ids();
    ids.sort_by_key(|rid| rid.0);
    ids.into_iter()
        .map(|rid| {
            let region = holder.get(rid);
            assert_eq!(region.get_id(), rid);
            let sites = region
                .site_ids()
                .into_iter()
                .map(|sid| {
                    assert_eq!(sid.rid, rid);
                    let info = region.find_site(sid).unwrap();
                    (sid.kind, sid.n, info.pos, info.site.clone())
                })
                .collect();
            (rid, region.name.clone(), region.get_map().clone(), sites)
        })
        .collect()
}

fn rebuilt(records: Vec<RegionRecord>) -> RegionHolder {
    let mut holder = RegionHolder::new();
    for (rid, name, map, sites) in records {
        let mut region = Region::new(&name, map);
        for (kind, n, pos, site) in sites {
            assert!(region.restore_site(kind, n, site, pos));
        }
        assert!(holder.restore_region(rid, region));
    }
    holder
}

#[test]
fn a_rebuilt_world_has_the_same_ids_and_maps() {
    let mut holder = RegionHolder::new();
    let r0 = holder.add_region(Region::new("moor", grid(3, 2, 1)));
    let r1 = holder.add_region(Region::new("coast", grid(2, 3, 2)));
    let a = holder.get_mut(r0).add_site(town(2), SiteKind::Town, Vec2d(1, 1)).unwrap();
    let b = holder.get_mut(r0).add_site(town(3), SiteKind::AutoGenDungeon, Vec2d(2, 0)).unwrap();
    let c = holder.get_mut(r1).add_site(town(1), SiteKind::Town, Vec2d(0, 0)).unwrap();
    let d = holder.get_mut(r1).add_site(town(2), SiteKind::Town, Vec2d(0, 2)).unwrap();
    holder.get_map_mut(MapId::SiteMap { sid: d, floor: 1 }).tile[0] = 9;

    let saved = records(&holder);
    let loaded = rebuilt(records(&holder));
    assert_eq!(records(&loaded), saved);

    let mut ids = loaded.region_ids();
    ids.sort_by_key(|rid| rid.0);
    assert_eq!(ids, vec![r0, r1]);
    assert_eq!(loaded.get(r0).site_ids(), vec![a, b]);
    assert_eq!(loaded.get(r1).site_ids(), vec![c, d]);
    for rid in [r0, r1] {
        let mid = MapId::RegionMap { rid };
        assert_eq!(loaded.get_map(mid), holder.get_map(mid));
    }
    for (sid, floors) in [(a, 2), (b, 3), (c, 1), (d, 2)] {
        assert_eq!(loaded.get_site_pos(sid), holder.get_site_pos(sid));
        for floor in 0..floors {
            let mid = MapId::SiteMap { sid, floor };
            assert_eq!(loaded.get_map(mid), holder.get_map(mid));
        }
        assert!(loaded.get_map_checked(MapId::SiteMap { sid, floor: floors }).is_none());
    }
    assert_eq!(loaded.get_map(MapId::SiteMap { sid: d, floor: 1 }).tile[0], 9);
}

#[test]
fn restoring_keeps_given_numbers_and_refuses_used_ones() {
    let mut region = Region::new("r", TileMap::empty());
    assert!(region.restore_site(SiteKind::Town, 2, town(1), Vec2d(0, 0)));
    assert!(!region.restore_site(SiteKind::Town, 2, town(1), Vec2d(1, 1)));
    assert!(region.restore_site(SiteKind::Other, 2, town(1), Vec2d(1, 1)));
    assert_eq!(region.get_site_n(SiteKind::Town), 1);
    let next = region.add_site(town(1), SiteKind::Town, Vec2d(3, 3)).unwrap();
    assert_eq!(next.n, 0);
    let next = region.add_site(town(1), SiteKind::Town, Vec2d(4, 3)).unwrap();
    assert_eq!(next.n, 1);
    let next = region.add_site(town(1), SiteKind::Town, Vec2d(5, 3)).unwrap();
    assert_eq!(next.n, 3);

    let mut holder = RegionHolder::new();
    assert!(holder.restore_region(RegionId(1), region));
    assert!(!holder.restore_region(RegionId(1), Region::new("x", TileMap::empty())));
    assert_eq!(holder.get(RegionId(1)).name, "r");
    assert_eq!(holder.get(RegionId(1)).get_id(), RegionId(1));
    assert_eq!(holder.add_region(Region::new("a", TileMap::empty())), RegionId(0));
    assert_eq!(holder.add_region(Region::new("b", TileMap::empty())), RegionId(2));
    let mut ids = holder.region_ids();
    ids.sort_by_key(|rid| rid.0);
    assert_eq!(ids, vec![RegionId(0), RegionId(1), RegionId(2)]);
}

#[test]
fn failed_lookups_name_the_identifier_that_is_unknown() {
    let mut holder = RegionHolder::new();
    let rid = holder.add_region(Region::new("r", grid(1, 1, 4)));
    let sid = holder.get_mut(rid).add_site(town(1), SiteKind::Town, Vec2d(2, 2)).unwrap();
    let far = SiteId { rid: RegionId(5), kind: SiteKind::Town, n: 0 };
    let none = SiteId { rid, kind: SiteKind::Town, n: 1 };

    assert_eq!(holder.try_get(rid).unwrap().name, "r");
    assert_eq!(holder.try_get(RegionId(5)).unwrap_err(), UnknownId::Region(RegionId(5)));

    assert_eq!(holder.try_get_site(sid), Ok(&town(1)));
    assert_eq!(holder.try_get_site(far), Err(UnknownId::Region(RegionId(5))));
    assert_eq!(holder.try_get_site(none), Err(UnknownId::Site(none)));

    assert_eq!(holder.try_get_site_pos(sid), Ok(Vec2d(2, 2)));
    assert_eq!(holder.try_get_site_pos(far), Err(UnknownId::Region(RegionId(5))));
    assert_eq!(holder.try_get_site_pos(none), Err(UnknownId::Site(none)));

    assert_eq!(holder.try_get_map(MapId::RegionMap { rid }), Ok(&grid(1, 1, 4)));
    assert_eq!(
        holder.try_get_map(MapId::RegionMap { rid: RegionId(1) }),
        Err(UnknownId::Region(RegionId(1)))
    );
    assert_eq!(holder.try_get_map(MapId::SiteMap { sid, floor: 0 }), Ok(&grid(2, 2, 100)));
    assert_eq!(
        holder.try_get_map(MapId::SiteMap { sid, floor: 1 }),
        Err(UnknownId::Floor(MapId::SiteMap { sid, floor: 1 }))
    );
    assert_eq!(
        holder.try_get_map(MapId::SiteMap { sid: far, floor: 0 }),
        Err(UnknownId::Region(RegionId(5)))
    );
    assert_eq!(
        holder.try_get_map(MapId::SiteMap { sid: none, floor: 0 }),
        Err(UnknownId::Site(none))
    );
}
