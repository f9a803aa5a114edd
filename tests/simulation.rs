use rand::rngs::SmallRng;
use rand::SeedableRng;
use rustic_mountain::celeste::Celeste;
use rustic_mountain::object::{Kind, Object, ObjectType};
use rustic_mountain::objects::balloon::Balloon;
use rustic_mountain::objects::chest::Chest;
use rustic_mountain::objects::platform::Platform;
use rustic_mountain::objects::player::Player;
use rustic_mountain::objects::smoke::Smoke;
use rustic_mountain::structures::{Rectangle, TileGrid, TileKind, Vector};

fn wave() -> Vec<i32> {
    (0..100)
        .map(|k| ((k as f32 / 100.0 * -2.0 * std::f32::consts::PI).sin() * 2.0).floor() as i32)
        .collect()
}

fn world(rows: Vec<Vec<TileKind>>, max_djump: u32, has_key: bool) -> Celeste {
    Celeste::new(
        TileGrid::from_rows(rows),
        max_djump,
        has_key,
        SmallRng::seed_from_u64(7),
        wave(),
    )
}

fn empty_world(max_djump: u32, has_key: bool) -> Celeste {
    world(Vec::new(), max_djump, has_key)
}

fn balloon_state(o: &Object) -> Balloon {
    match o.obj_type {
        ObjectType::Balloon(b) => b,
        _ => panic!("not a balloon"),
    }
}

fn djump(o: &Object) -> u32 {
    match o.obj_type {
        ObjectType::Player(p) => p.djump,
        _ => panic!("not a player"),
    }
}

fn count_kind(c: &Celeste, k: Kind) -> usize {
    c.objects.iter().filter(|o| o.kind_tag() == k).count()
}

#[test]
fn balloon_pops_and_respawns_end_to_end() {
    let mut c = empty_world(1, false);
    let b = Balloon::init(&mut c, 10, 10);
    c.add_object(b);
    let mut p = Player::init(&mut c, 10, 10);
    p.obj_type = ObjectType::Player(Player { djump: 0 });
    c.add_object(p);

    c.next_tick();
    assert_eq!(djump(&c.objects[1]), 1);
    assert_eq!(c.objects[0].spr, 0);
    assert_eq!(balloon_state(&c.objects[0]).timer, 60);
    assert_eq!(count_kind(&c, Kind::Smoke), 1);

    for _tick in 2..=60 {
        c.next_tick();
        assert_eq!(c.objects[0].spr, 0);
    }
    c.next_tick();
    assert_eq!(c.objects[0].spr, 22);
    assert_eq!(djump(&c.objects[1]), 1);
}

#[test]
fn balloon_ignores_player_with_full_charge() {
    let mut c = empty_world(1, false);
    let b = Balloon::init(&mut c, 10, 10);
    c.add_object(b);
    let p = Player::init(&mut c, 10, 10);
    c.add_object(p);
    c.next_tick();
    assert_eq!(c.objects[0].spr, 22);
    assert_eq!(balloon_state(&c.objects[0]).timer, 0);
    assert_eq!(count_kind(&c, Kind::Smoke), 0);
}

#[test]
fn balloon_bobs_around_start() {
    let mut c = empty_world(1, false);
    let b = Balloon::init(&mut c, 40, 40);
    c.add_object(b);
    for _ in 0..150 {
        let before = balloon_state(&c.objects[0]).offset;
        c.next_tick();
        let s = balloon_state(&c.objects[0]);
        assert_eq!(s.offset, (before + 1) % 300);
        assert_eq!(s.start, 40);
        let y = c.objects[0].pos.y;
        assert_eq!(y, 40 + wave()[(s.offset % 100) as usize]);
        assert!((38..=42).contains(&y));
    }
}

#[test]
fn balloon_draws_string_then_body() {
    let mut c = empty_world(1, false);
    let mut b = Balloon::init(&mut c, 10, 20);
    b.obj_type = ObjectType::Balloon(Balloon { offset: 50, timer: 0, start: 20 });
    let s = Balloon::draw(&b);
    assert_eq!(s.len(), 2);
    // 50 hundredths of a turn: 8 * 0.5 = 4, and 4 mod 3 = 1.
    assert_eq!(s[0].id, 14);
    assert_eq!((s[0].x, s[0].y), (10, 26));
    assert_eq!((s[1].id, s[1].x, s[1].y), (22, 10, 20));
    b.spr = 0;
    assert!(Balloon::draw(&b).is_empty());
}

#[test]
fn platform_drifts_right_at_fixed_rate() {
    let mut c = empty_world(1, false);
    let p = Platform::init(&mut c, 20, 50, 12);
    c.add_object(p);
    let x0 = c.objects[0].pos.x;
    assert_eq!(x0, 16);
    for n in 1..=40 {
        c.next_tick();
        let o = &c.objects[0];
        assert_eq!(100 * o.pos.x + o.rem.x, 100 * x0 + 65 * n);
        assert_eq!(o.spd.x, 65);
    }
    // 40 ticks at 0.65 pixels: 26 pixels exactly.
    assert_eq!(c.objects[0].pos.x, 42);
    assert_eq!(c.objects[0].rem.x, 0);
}

#[test]
fn platform_sprite_eleven_drifts_left() {
    let mut c = empty_world(1, false);
    let p = Platform::init(&mut c, 20, 50, 11);
    c.add_object(p);
    for _ in 0..20 {
        c.next_tick();
    }
    // 20 ticks at -0.65 pixels: 13 pixels.
    assert_eq!(c.objects[0].pos.x, 16 - 13);
}

#[test]
fn platform_wraps_around_screen_edges() {
    let mut c = empty_world(1, false);
    let mut p = Platform::init(&mut c, 20, 50, 12);
    p.pos.x = 129;
    c.add_object(p);
    c.next_tick();
    // Wrapped to -16, then moved 0.65 (rounded to 1 pixel).
    assert_eq!(c.objects[0].pos.x, -15);

    let mut q = Platform::init(&mut c, 20, 50, 11);
    q.pos.x = -17;
    c.add_object(q);
    c.next_tick();
    assert_eq!(c.objects[1].pos.x, 127);
}

#[test]
fn platform_carries_player_standing_on_it() {
    let mut c = empty_world(1, false);
    let p = Platform::init(&mut c, 20, 50, 12);
    c.add_object(p);
    c.next_tick();
    assert_eq!(c.objects[0].pos.x, 17);
    let pl = Player::init(&mut c, 18, 42);
    c.add_object(pl);
    c.next_tick();
    // The platform went from 16 to 17 between its updates.
    assert_eq!(c.objects[1].pos.x, 19);
    assert_eq!(c.objects[1].pos.y, 42);
}

#[test]
fn platform_leaves_player_inside_it_alone() {
    let mut c = empty_world(1, false);
    let p = Platform::init(&mut c, 20, 50, 12);
    c.add_object(p);
    c.next_tick();
    let pl = Player::init(&mut c, 18, 46);
    c.add_object(pl);
    c.next_tick();
    assert_eq!(c.objects[1].pos.x, 18);
}

#[test]
fn platform_draws_two_halves() {
    let mut c = empty_world(1, false);
    let p = Platform::init(&mut c, 20, 50, 12);
    let s = Platform::draw(&p);
    assert_eq!(s.len(), 2);
    assert_eq!((s[0].id, s[0].x, s[0].y), (11, 16, 49));
    assert_eq!((s[1].id, s[1].x, s[1].y), (12, 24, 49));
}

#[test]
fn chest_releases_one_fruit_after_twenty_ticks() {
    let mut c = empty_world(1, true);
    let ch = Chest::init(&mut c, 20, 40);
    c.add_object(ch);
    for _ in 1..20 {
        c.next_tick();
        assert_eq!(count_kind(&c, Kind::Fruit), 0);
        let x = c.objects[0].pos.x;
        assert!((15..=17).contains(&x));
    }
    c.next_tick();
    assert_eq!(count_kind(&c, Kind::Fruit), 1);
    let fruit = c.objects[1];
    assert_eq!(fruit.kind_tag(), Kind::Fruit);
    assert_eq!((fruit.pos.x, fruit.pos.y), (16, 36));
    for _ in 0..30 {
        c.next_tick();
        assert_eq!(count_kind(&c, Kind::Fruit), 1);
    }
    assert_eq!(c.objects.len(), 2);
}

#[test]
fn chest_without_key_stays_put() {
    let mut c = empty_world(1, false);
    let ch = Chest::init(&mut c, 20, 40);
    c.add_object(ch);
    for _ in 0..40 {
        c.next_tick();
    }
    assert_eq!(c.objects.len(), 1);
    assert_eq!(c.objects[0].pos.x, 16);
    match c.objects[0].obj_type {
        ObjectType::Chest(s) => assert_eq!((s.start, s.timer), (16, 20)),
        _ => panic!("not a chest"),
    }
}

#[test]
fn random_draws_stay_below_bound() {
    let mut c = empty_world(1, false);
    let mut seen = [false; 3];
    for _ in 0..200 {
        let r = c.random_below(3);
        assert!(r < 3);
        seen[r as usize] = true;
    }
    assert!(seen.iter().all(|s| *s));
    let b = Balloon::init(&mut c, 10, 10);
    assert!(balloon_state(&b).offset < 100);
}

#[test]
fn smoke_fades_and_is_removed() {
    let mut c = empty_world(1, false);
    let s = Smoke::init(&mut c, 30, 30);
    assert_eq!(s.spr, 29);
    assert!(s.spd.x >= 30 && s.spd.x < 50);
    assert_eq!(s.spd.y, -10);
    c.add_object(s);
    for t in 1..15 {
        c.next_tick();
        assert_eq!(c.objects.len(), 1);
        assert_eq!(c.objects[0].spr as u32, 29 + t / 5);
    }
    c.next_tick();
    assert!(c.objects.is_empty());
}

#[test]
fn compact_keeps_order_of_survivors() {
    let mut c = empty_world(1, false);
    for x in 0..4 {
        let mut o = Chest::init(&mut c, 10 * x + 20, 40);
        o.removed = x % 2 == 1;
        c.add_object(o);
    }
    c.compact();
    assert_eq!(c.objects.len(), 2);
    assert_eq!(c.objects[0].pos.x, 16);
    assert_eq!(c.objects[1].pos.x, 36);
}

#[test]
fn frame_lists_sprites_in_registry_order() {
    let mut c = empty_world(1, false);
    let ch = Chest::init(&mut c, 20, 40);
    c.add_object(ch);
    let p = Platform::init(&mut c, 60, 50, 12);
    c.add_object(p);
    let f = c.draw();
    assert_eq!(f.len(), 3);
    assert_eq!((f[0].id, f[0].x, f[0].y), (20, 16, 40));
    assert_eq!((f[1].id, f[1].x, f[1].y), (11, 56, 49));
    assert_eq!((f[2].id, f[2].x, f[2].y), (12, 64, 49));
}

#[test]
fn check_finds_first_overlap_in_registry_order() {
    let mut c = empty_world(1, false);
    let b = Balloon::init(&mut c, 10, 10);
    c.add_object(b);
    let far = Player::init(&mut c, 60, 60);
    c.add_object(far);
    let near1 = Player::init(&mut c, 12, 10);
    c.add_object(near1);
    let near2 = Player::init(&mut c, 10, 10);
    c.add_object(near2);
    let me = c.objects[0];
    assert_eq!(me.check(&c, 0, Kind::Player, 0, 0), Some(2));
    assert_eq!(me.check(&c, 0, Kind::Chest, 0, 0), None);
    assert_eq!(me.check(&c, 0, Kind::Player, 100, 0), None);
}

#[test]
fn overlap_needs_shared_area_and_is_symmetric() {
    let mut c = empty_world(1, false);
    let a = Chest::init(&mut c, 4, 0); // box [0,8) x [0,8)
    let mut b = Chest::init(&mut c, 12, 0); // box [8,16) x [0,8): edges touch
    assert!(!a.overlapping(&b, 0, 0));
    assert!(!b.overlapping(&a, 0, 0));
    b.pos.x = 7;
    assert!(a.overlapping(&b, 0, 0));
    assert!(b.overlapping(&a, 0, 0));
    b.pos.y = 8;
    assert!(!a.overlapping(&b, 0, 0));
    assert!(a.overlapping(&b, 0, 1));
}

#[test]
fn move_on_empty_grid_rounds_and_carries_remainder() {
    let c = empty_world(1, false);
    let mut c2 = empty_world(1, false);
    let mut o = Player::init(&mut c2, 40, 40);
    o.spd = Vector { x: 65, y: -30 };
    let mut total = 0;
    for n in 1..=3 {
        let before = o.pos.x;
        o.do_move(&c.grid, o.spd.x, o.spd.y);
        total += o.pos.x - before;
        assert_eq!(100 * o.pos.x + o.rem.x, 100 * 40 + 65 * n);
        assert_eq!(100 * o.pos.y + o.rem.y, 100 * 40 - 30 * n);
    }
    // 1.95 pixels round to 2.
    assert_eq!(total, 2);
    assert_eq!(o.rem.x, -5);
    assert_eq!(o.spd, Vector { x: 65, y: -30 });
}

#[test]
fn move_stops_at_solid_tile() {
    // A wall in column 6 (pixels 48..56) of row 5.
    let mut row = vec![TileKind::Empty; 16];
    row[6] = TileKind::Solid;
    let mut rows = vec![vec![TileKind::Empty; 16]; 16];
    rows[5] = row;
    let mut c = world(rows, 1, false);
    // Player box [x+1, x+7) x [43, 48): row 5 spans 40..48.
    let mut o = Player::init(&mut c, 30, 40);
    o.spd = Vector { x: 3000, y: 0 };
    o.do_move(&c.grid, o.spd.x, 0);
    // Stops with its box's right edge at the wall: x + 7 == 48.
    assert_eq!(o.pos.x, 41);
    assert_eq!(o.spd.x, 0);
    assert_eq!(o.rem.x, 0);
}

#[test]
fn one_way_tile_stops_downward_move_only() {
    let mut rows = vec![vec![TileKind::Empty; 16]; 16];
    rows[6] = vec![TileKind::OneWayUp; 16];
    let c = world(rows, 1, false);
    let mut c2 = empty_world(1, false);
    // Player box y from 43 to 48; row 6 starts at 48.
    let mut o = Player::init(&mut c2, 30, 40);
    o.move_y(&c.grid, 5);
    assert_eq!(o.pos.y, 40);
    o.move_y(&c.grid, -5);
    assert_eq!(o.pos.y, 35);
    // From inside the platform it may keep going down.
    let mut inside = Player::init(&mut c2, 30, 44);
    inside.move_y(&c.grid, 3);
    assert_eq!(inside.pos.y, 47);
}

#[test]
fn tile_queries_treat_outside_as_empty() {
    let rows = vec![vec![TileKind::Solid, TileKind::Hazard], vec![TileKind::Empty]];
    let g = TileGrid::from_rows(rows);
    assert_eq!(g.tile_at(0, 0), TileKind::Solid);
    assert_eq!(g.tile_at(1, 0), TileKind::Hazard);
    assert_eq!(g.tile_at(1, 1), TileKind::Empty);
    assert_eq!(g.tile_at(-1, 0), TileKind::Empty);
    assert_eq!(g.tile_at(0, 5), TileKind::Empty);
    assert!(g.region_contains(7, 7, 1, 1, TileKind::Solid));
    assert!(!g.region_contains(8, 0, 8, 8, TileKind::Solid));
    assert!(g.region_contains(-4, -4, 5, 5, TileKind::Solid));
    assert!(!g.region_contains(-4, -4, 4, 4, TileKind::Solid));
    assert!(g.region_contains(9, 1, 2, 2, TileKind::Hazard));
}

#[test]
fn factories_set_kind_geometry() {
    let mut c = empty_world(2, false);
    let p = Player::init(&mut c, 5, 6);
    assert_eq!(p.hitbox, Rectangle { x: 1, y: 3, w: 6, h: 5 });
    assert_eq!(djump(&p), 2);
    let b = Balloon::init(&mut c, 5, 6);
    assert_eq!(b.hitbox, Rectangle { x: -1, y: -1, w: 10, h: 10 });
    assert_eq!((b.spr, b.solids, b.collidable), (22, false, true));
    let ch = Chest::init(&mut c, 5, 6);
    assert_eq!((ch.pos.x, ch.spr), (1, 20));
    let pl = Platform::init(&mut c, 5, 6, 11);
    assert_eq!(pl.hitbox, Rectangle { x: 0, y: 0, w: 16, h: 8 });
    match pl.obj_type {
        ObjectType::Platform(s) => assert_eq!((s.last, s.dir), (-4, -1)),
        _ => panic!("not a platform"),
    }
}
