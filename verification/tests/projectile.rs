use tower_defense::projectile::{play_death_sound, projectile_collision, HIT_RADIUS};
use tower_defense::target::{Health, FULL_HEALTH, HIT_DAMAGE};

fn keys_of(rows: &[&[f32]]) -> Vec<Vec<u32>> {
    rows.iter().map(|row| row.iter().map(|d| d.to_bits()).collect()).collect()
}

#[test]
fn hit_radius_is_four_tenths() {
    assert_eq!(HIT_RADIUS, 0.4f32.to_bits());
}

#[test]
fn no_projectiles_change_nothing() {
    let mut health = vec![Health(300), Health(15)];
    let out = projectile_collision(&vec![], &mut health);
    assert_eq!(health, vec![Health(300), Health(15)]);
    assert!(out.spent.is_empty());
    assert!(out.kills.is_empty());
}

#[test]
fn no_targets_spend_no_projectile() {
    let mut health: Vec<Health> = vec![];
    let out = projectile_collision(&keys_of(&[&[], &[]]), &mut health);
    assert_eq!(out.spent, vec![false, false]);
    assert!(out.kills.is_empty());
}

#[test]
fn a_hit_takes_fifteen_and_spends_the_projectile() {
    let mut health = vec![Health::full()];
    let out = projectile_collision(&keys_of(&[&[0.1]]), &mut health);
    assert_eq!(health, vec![Health(285)]);
    assert_eq!(out.spent, vec![true]);
    assert!(out.kills.is_empty());
}

#[test]
fn a_miss_changes_nothing() {
    let mut health = vec![Health::full()];
    let out = projectile_collision(&keys_of(&[&[0.5]]), &mut health);
    assert_eq!(health, vec![Health(300)]);
    assert_eq!(out.spent, vec![false]);
    assert!(out.kills.is_empty());
}

#[test]
fn the_hit_radius_itself_is_a_miss() {
    let mut health = vec![Health::full()];
    let out = projectile_collision(&keys_of(&[&[0.4]]), &mut health);
    assert_eq!(health, vec![Health(300)]);
    assert_eq!(out.spent, vec![false]);
    let mut health = vec![Health::full()];
    let just_inside = f32::from_bits(0.4f32.to_bits() - 1);
    let out = projectile_collision(&keys_of(&[&[just_inside]]), &mut health);
    assert_eq!(health, vec![Health(285)]);
    assert_eq!(out.spent, vec![true]);
}

#[test]
fn a_distance_that_is_no_number_is_a_miss() {
    let mut health = vec![Health::full()];
    let out = projectile_collision(&keys_of(&[&[f32::NAN]]), &mut health);
    assert_eq!(health, vec![Health(300)]);
    assert_eq!(out.spent, vec![false]);
}

#[test]
fn the_last_hit_kills() {
    let mut health = vec![Health(15)];
    let out = projectile_collision(&keys_of(&[&[0.0]]), &mut health);
    assert_eq!(health, vec![Health(0)]);
    assert_eq!(out.kills, vec![0]);
}

#[test]
fn one_projectile_hits_every_target_in_reach() {
    let mut health = vec![Health(30), Health(15), Health(300)];
    let out = projectile_collision(&keys_of(&[&[0.1, 0.2, 0.9]]), &mut health);
    assert_eq!(health, vec![Health(15), Health(0), Health(300)]);
    assert_eq!(out.spent, vec![true]);
    assert_eq!(out.kills, vec![1]);
}

#[test]
fn a_dead_target_is_killed_again_by_a_later_hit() {
    let mut health = vec![Health(15), Health(30)];
    let distances = keys_of(&[&[0.1, 0.3], &[0.2, 0.3], &[9.0, 9.0]]);
    let out = projectile_collision(&distances, &mut health);
    assert_eq!(health, vec![Health(-15), Health(0)]);
    assert_eq!(out.spent, vec![true, true, false]);
    assert_eq!(out.kills, vec![0, 0, 1]);
}

#[test]
fn twenty_hits_kill_a_fresh_target() {
    assert_eq!(FULL_HEALTH, 300);
    assert_eq!(HIT_DAMAGE, 15);
    let mut health = vec![Health::full()];
    let nineteen: Vec<Vec<u32>> = (0..19).map(|_| vec![0.0f32.to_bits()]).collect();
    let out = projectile_collision(&nineteen, &mut health);
    assert_eq!(health, vec![Health(15)]);
    assert!(out.kills.is_empty());
    let out = projectile_collision(&keys_of(&[&[0.0]]), &mut health);
    assert_eq!(health, vec![Health(0)]);
    assert_eq!(out.kills, vec![0]);
}

#[test]
fn health_falls_by_hit_and_is_depleted_at_zero() {
    let h = Health(30);
    assert!(!h.depleted());
    let h = h.after_hit();
    assert_eq!(h, Health(15));
    assert!(!h.depleted());
    let h = h.after_hit();
    assert_eq!(h, Health(0));
    assert!(h.depleted());
    assert!(h.after_hit().depleted());
    assert_eq!(h.after_hit(), Health(-15));
}

#[test]
fn death_sound_plays_once_whatever_the_toll() {
    assert!(!play_death_sound(0));
    assert!(play_death_sound(1));
    assert!(play_death_sound(7));
}
