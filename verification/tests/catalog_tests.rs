use dungeon_crawler_server::catalog::select_template;
use dungeon_crawler_server::catalog::MonsterCatalog;
use dungeon_crawler_server::monsters::Monster;
use dungeon_crawler_server::monsters::MonsterInstance;
use dungeon_crawler_server::stats::Attributes;
use dungeon_crawler_server::stats::Stats;
use dungeon_crawler_server::text::u32_to_string;
use dungeon_crawler_server::transforms::vec2::Vec2;
use rand::RngCore;

fn template(id: u32, name: &'static str, weight: u32) -> Monster {
    Monster {
        stats: Stats {
            cur_health: 20,
            max_health: 20,
            cur_stamina: 20,
            max_stamina: 20,
            cur_magicka: 0,
            max_magicka: 0,
        },
        attrs: Attributes {
            might: 2,
            fines: 5,
            intel: 1,
        },
        sight_range: 5,
        id,
        name,
        spawn_chance: weight,
    }
}

fn goblin_and_ghost() -> MonsterCatalog {
    MonsterCatalog::new(vec![template(0, "Goblin", 10), template(1, "Ghost", 3)]).unwrap()
}

#[test]
fn test_single_template_always_selected() {
    let catalog = MonsterCatalog::new(vec![template(0, "Goblin", 10)]).unwrap();
    let mut rng = rand::thread_rng();
    for _ in 0..1000 {
        assert_eq!(select_template(&catalog, rng.next_u32()), 0);
    }
    for raw in 0..100 {
        assert_eq!(select_template(&catalog, raw), 0);
    }
}

#[test]
fn test_selection_boundaries() {
    // Weights {10, 3}: draws 1..=10 pick the goblin, 11..=13 the ghost.
    // The draw is raw % 13 + 1.
    let catalog = goblin_and_ghost();
    assert_eq!(select_template(&catalog, 0), 0); // draw 1
    assert_eq!(select_template(&catalog, 9), 0); // draw 10, boundary
    assert_eq!(select_template(&catalog, 10), 1); // draw 11
    assert_eq!(select_template(&catalog, 12), 1); // draw 13
    assert_eq!(select_template(&catalog, 13), 0); // wraps to draw 1
}

#[test]
fn test_spawn_ratio_close_to_weights() {
    // 10,000 draws over weights {Goblin: 10, Ghost: 3}: the goblin share
    // converges to 10/13 within sampling error.
    let catalog = goblin_and_ghost();
    let mut rng = rand::thread_rng();
    let mut goblins: u32 = 0;
    let draws: u32 = 10_000;
    for _ in 0..draws {
        if select_template(&catalog, rng.next_u32()) == 0 {
            goblins += 1;
        }
    }
    let share = goblins as f64 / draws as f64;
    let expected = 10.0 / 13.0;
    assert!(
        (share - expected).abs() < 0.02,
        "goblin share {} too far from {}",
        share,
        expected
    );
}

#[test]
fn test_catalog_rejects_bad_tables() {
    assert!(MonsterCatalog::new(Vec::new()).is_none());
    assert!(MonsterCatalog::new(vec![template(0, "Goblin", 0)]).is_none());
    assert!(MonsterCatalog::new(vec![
        template(0, "Goblin", u32::MAX),
        template(1, "Ghost", 1)
    ])
    .is_none());
}

#[test]
fn test_u32_to_string() {
    assert_eq!(u32_to_string(0), "0");
    assert_eq!(u32_to_string(7), "7");
    assert_eq!(u32_to_string(10), "10");
    assert_eq!(u32_to_string(90125), "90125");
    assert_eq!(u32_to_string(u32::MAX), "4294967295");
}

#[test]
fn test_serialize_is_template_and_instance_id() {
    let m = MonsterInstance::new(template(0, "Goblin", 10), 5);
    assert_eq!(m.serialize(), "0::5");
    let m2 = MonsterInstance::new(template(12, "Ghost", 3), 4021);
    assert_eq!(m2.serialize(), "12::4021");
}

#[test]
fn test_instance_path_consumed_from_tail() {
    let mut m = MonsterInstance::new(template(0, "Goblin", 10), 1);
    assert_eq!(m.id(), 1);
    assert_eq!(m.target(), None);
    assert_eq!(m.next_step(), None);
    // Reverse order of travel: goal first, next step last.
    m.set_path(vec![Vec2(3, 0), Vec2(2, 0), Vec2(1, 0)]);
    assert_eq!(m.target(), Some(Vec2(3, 0)));
    assert_eq!(m.next_step(), Some(Vec2(1, 0)));
    assert_eq!(m.next_step(), Some(Vec2(2, 0)));
    assert_eq!(m.next_step(), Some(Vec2(3, 0)));
    assert_eq!(m.next_step(), None);
}

#[test]
fn test_instance_combat_and_sighting() {
    let mut m = MonsterInstance::new(template(0, "Goblin", 10), 1);
    assert_eq!(m.combat_target(), None);
    m.start_combat_with(9);
    assert_eq!(m.combat_target(), Some(9));
    m.stop_combat();
    assert_eq!(m.combat_target(), None);
    assert_eq!(m.sight_range(), 5);
    assert_eq!(m.last_sighting(), 0);
    m.reset_last_sighting(42);
    assert_eq!(m.last_sighting(), 42);
}
