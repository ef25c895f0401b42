use gladiator::dice::DiceSource;

#[test]
fn rolls_sum_the_scripted_draws() {
    let mut d = DiceSource::new_scripted(vec![3, 4, 5]);
    assert_eq!(d.roll(3, 6), 12);
}

#[test]
fn scripted_draws_are_clamped_into_the_die() {
    let mut d = DiceSource::new_scripted(vec![0]);
    assert_eq!(d.roll(1, 6), 1);
    let mut d = DiceSource::new_scripted(vec![255]);
    assert_eq!(d.roll(1, 6), 6);
}

#[test]
fn an_exhausted_script_serves_ones() {
    let mut d = DiceSource::new_scripted(vec![]);
    assert_eq!(d.roll(2, 6), 2);
    let mut d = DiceSource::new_scripted(vec![6]);
    assert_eq!(d.roll(2, 6), 7);
}

#[test]
fn consecutive_rolls_consume_the_script_in_order() {
    let mut d = DiceSource::new_scripted(vec![2, 3, 4, 5]);
    assert_eq!(d.roll(2, 10), 5);
    assert_eq!(d.roll(2, 10), 9);
}

#[test]
fn random_rolls_stay_in_range() {
    let mut d = DiceSource::new_random();
    for _ in 0..100 {
        let r = d.roll(3, 6);
        assert!((3..=18).contains(&r));
        let one = d.roll(1, 20);
        assert!((1..=20).contains(&one));
    }
}
