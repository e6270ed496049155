use arena_duel::direction::Direction;
use rand::SeedableRng;

#[test]
fn random_draws_both_directions() {
    let mut rng = rand::rngs::StdRng::seed_from_u64(11);
    let mut saw_pos = false;
    let mut saw_neg = false;
    for _ in 0..100 {
        match Direction::random(&mut rng) {
            Direction::Pos => saw_pos = true,
            Direction::Neg => saw_neg = true,
        }
    }
    assert!(saw_pos && saw_neg);
}

#[test]
fn value_domain_is_exactly_plus_or_minus_one() {
    assert_eq!(Direction::Pos.value(), 1);
    assert_eq!(Direction::Neg.value(), -1);
}

#[test]
fn switch_twice_restores_direction() {
    let mut d = Direction::Pos;
    d.switch();
    assert_eq!(d, Direction::Neg);
    d.switch();
    assert_eq!(d, Direction::Pos);

    let mut n = Direction::Neg;
    n.switch();
    n.switch();
    assert_eq!(n, Direction::Neg);
}

#[test]
fn switch_flips_the_sign() {
    let mut d = Direction::Pos;
    d.switch();
    assert_eq!(d.value(), -1);
}
