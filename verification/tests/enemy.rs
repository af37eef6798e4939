use deckbuilder::enemy::Enemy;
use deckbuilder::random::RandomSource;

fn sentinel() -> Enemy {
    Enemy::new(
        "Sentinel".to_string(),
        20,
        2,
        vec![
            "First!".to_string(),
            "Second!".to_string(),
            "Third!".to_string(),
        ],
    )
}

#[test]
fn new_enemy_has_no_effects_on_it() {
    let enemy = sentinel();
    assert_eq!(enemy.name, "Sentinel");
    assert_eq!(enemy.health, 20);
    assert_eq!(enemy.attack, 2);
    assert_eq!(enemy.poison, 0);
    assert_eq!(enemy.stunned, 0);
    assert_eq!(enemy.shield, 0);
    assert_eq!(enemy.rage, 0);
    assert_eq!(enemy.taunts.len(), 3);
}

#[test]
fn shield_absorbs_before_health() {
    let mut enemy = sentinel();
    enemy.apply_shield(3);
    let dealt = enemy.take_damage(5);
    assert_eq!(dealt, 2);
    assert_eq!(enemy.shield, 0);
    assert_eq!(enemy.health, 18);
    assert_eq!(enemy.rage, 2);
    assert_eq!(enemy.attack, 2);
}

#[test]
fn shield_larger_than_hit_lets_nothing_through() {
    let mut enemy = sentinel();
    enemy.apply_shield(10);
    let dealt = enemy.take_damage(4);
    assert_eq!(dealt, 0);
    assert_eq!(enemy.shield, 6);
    assert_eq!(enemy.health, 20);
    assert_eq!(enemy.rage, 0);
}

#[test]
fn shield_stops_at_the_largest_value() {
    let mut enemy = sentinel();
    enemy.apply_shield(u32::MAX);
    enemy.apply_shield(7);
    assert_eq!(enemy.shield, u32::MAX);
}

#[test]
fn damage_beyond_health_stops_at_zero() {
    let mut enemy = sentinel();
    let dealt = enemy.take_damage(u32::MAX);
    assert_eq!(dealt, u32::MAX);
    assert_eq!(enemy.health, 0);
    assert_eq!(enemy.shield, 0);
    assert_eq!(enemy.rage, 0);
    assert_eq!(enemy.attack, 3);
    let again = enemy.take_damage(5);
    assert_eq!(again, 5);
    assert_eq!(enemy.health, 0);
}

#[test]
fn rage_below_the_limit_gathers() {
    let mut enemy = sentinel();
    enemy.increase_rage(40);
    enemy.increase_rage(59);
    assert_eq!(enemy.rage, 99);
    assert_eq!(enemy.attack, 2);
}

#[test]
fn rage_at_the_limit_raises_attack_once() {
    let mut enemy = sentinel();
    enemy.increase_rage(60);
    enemy.increase_rage(40);
    assert_eq!(enemy.rage, 0);
    assert_eq!(enemy.attack, 3);
    enemy.increase_rage(100);
    assert_eq!(enemy.rage, 0);
    assert_eq!(enemy.attack, 4);
    enemy.increase_rage(30);
    assert_eq!(enemy.rage, 30);
    assert_eq!(enemy.attack, 4);
}

#[test]
fn rage_past_the_limit_starts_again_at_zero() {
    let mut enemy = sentinel();
    enemy.increase_rage(90);
    enemy.increase_rage(20);
    assert_eq!(enemy.rage, 0);
    assert_eq!(enemy.attack, 3);
    enemy.increase_rage(250);
    assert_eq!(enemy.rage, 0);
    assert_eq!(enemy.attack, 4);
}

#[test]
fn rage_sum_that_would_overflow_still_counts_once() {
    let mut enemy = sentinel();
    enemy.increase_rage(50);
    enemy.increase_rage(u32::MAX);
    assert_eq!(enemy.rage, 0);
    assert_eq!(enemy.attack, 3);
}

#[test]
fn attack_stops_at_the_largest_value() {
    let mut enemy = sentinel();
    enemy.attack = u32::MAX;
    enemy.increase_rage(100);
    assert_eq!(enemy.attack, u32::MAX);
    assert_eq!(enemy.rage, 0);
}

#[test]
fn poison_of_three_ticks_three_two_one_nothing() {
    let mut enemy = sentinel();
    enemy.apply_poison(3);
    assert_eq!(enemy.take_poison_damage(), 3);
    assert_eq!(enemy.take_poison_damage(), 2);
    assert_eq!(enemy.take_poison_damage(), 1);
    assert_eq!(enemy.take_poison_damage(), 0);
    assert_eq!(enemy.poison, 0);
    assert_eq!(enemy.health, 14);
}

#[test]
fn poison_stacks_and_stops_at_the_largest_value() {
    let mut enemy = sentinel();
    enemy.apply_poison(2);
    enemy.apply_poison(3);
    assert_eq!(enemy.poison, 5);
    enemy.apply_poison(u32::MAX);
    assert_eq!(enemy.poison, u32::MAX);
    assert_eq!(enemy.take_poison_damage(), u32::MAX);
    assert_eq!(enemy.health, 0);
    assert_eq!(enemy.poison, u32::MAX - 1);
}

#[test]
fn poison_does_not_feed_rage_or_touch_shield() {
    let mut enemy = sentinel();
    enemy.apply_shield(4);
    enemy.apply_poison(6);
    assert_eq!(enemy.take_poison_damage(), 6);
    assert_eq!(enemy.health, 14);
    assert_eq!(enemy.shield, 4);
    assert_eq!(enemy.rage, 0);
}

#[test]
fn stun_adds_up_and_each_check_uses_one_turn() {
    let mut enemy = sentinel();
    assert!(!enemy.is_stunned());
    assert_eq!(enemy.stunned, 0);
    enemy.apply_stun(1);
    enemy.apply_stun(1);
    assert_eq!(enemy.stunned, 2);
    assert!(enemy.is_stunned());
    assert_eq!(enemy.stunned, 1);
    assert!(enemy.is_stunned());
    assert_eq!(enemy.stunned, 0);
    assert!(!enemy.is_stunned());
    enemy.apply_stun(u32::MAX);
    enemy.apply_stun(3);
    assert_eq!(enemy.stunned, u32::MAX);
}

#[test]
fn taunt_comes_from_the_pool() {
    let enemy = sentinel();
    let mut source = RandomSource::seeded(11);
    let mut seen = [false; 3];
    for _ in 0..200 {
        let line = enemy.taunt(&mut source).to_string();
        let place = enemy.taunts.iter().position(|taunt| *taunt == line);
        assert!(place.is_some());
        seen[place.unwrap()] = true;
    }
    assert_eq!(seen, [true, true, true]);
}

#[test]
fn taunt_of_an_empty_pool_is_the_fallback() {
    let enemy = Enemy::new("Mute".to_string(), 1, 1, Vec::new());
    let mut source = RandomSource::from_os();
    assert_eq!(enemy.taunt(&mut source), "...");
}

#[test]
fn same_seed_gives_the_same_taunts() {
    let enemy = sentinel();
    let mut first = RandomSource::seeded(2024);
    let mut second = RandomSource::seeded(2024);
    for _ in 0..50 {
        assert_eq!(enemy.taunt(&mut first), enemy.taunt(&mut second));
    }
}
