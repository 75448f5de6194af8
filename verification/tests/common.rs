use tower_defense::common::{Health, Lifetime};
use tower_defense::projectile::{projectile_lifetime, PROJECTILE_LIFETIME_MILLIS};

#[test]
fn hit_takes_the_damage_off() {
    let mut health = Health { value: 3 };
    health.hit(1);
    assert_eq!(health, Health { value: 2 });
    assert!(!health.is_dead());
    health.hit(2);
    assert_eq!(health.value, 0);
    assert!(health.is_dead());
}

#[test]
fn unit_with_negative_health_is_dead() {
    let mut health = Health { value: 1 };
    health.hit(5);
    assert_eq!(health.value, -4);
    assert!(health.is_dead());
}

#[test]
fn hit_stays_within_the_counter() {
    let mut health = Health { value: i32::MIN + 1 };
    health.hit(10);
    assert_eq!(health.value, i32::MIN);
    let mut healed = Health { value: i32::MAX - 1 };
    healed.hit(-10);
    assert_eq!(healed.value, i32::MAX);
}

#[test]
fn lifetime_expires_once() {
    let mut lifetime = Lifetime::from_millis(10_000);
    assert!(!lifetime.tick(9_999_999_999));
    assert!(lifetime.tick(1));
    assert!(!lifetime.tick(1_000_000_000));
    assert!(!lifetime.tick(20_000_000_000));
}

#[test]
fn projectile_lives_ten_seconds() {
    assert_eq!(PROJECTILE_LIFETIME_MILLIS, 10_000);
    let mut lifetime = projectile_lifetime();
    assert_eq!(lifetime, Lifetime::from_millis(10_000));
    assert!(!lifetime.tick(9_999_999_999));
    assert!(lifetime.tick(1));
}
