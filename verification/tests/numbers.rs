use match_strategies::gaps::gaps_between;
use match_strategies::outcome::{arrive, glide, still};
use match_strategies::scalar::{micro, milli, units, Scalar};
use match_strategies::vector::{aligned_above, alignment, flat, vec3};

#[test]
fn sums_products_and_quotients() {
    assert_eq!(units(3) + milli(250), milli(3250));
    assert_eq!(units(3) - units(5), units(2).negated());
    assert_eq!(milli(1500) * milli(1500), milli(2250));
    assert_eq!(micro(1) * milli(1), units(0));
    assert_eq!(units(10) / units(3), micro(3333333));
    assert_eq!((units(10) / units(3)).negated(), units(10).negated() / units(3));
}

#[test]
fn operations_stay_in_range() {
    let most = Scalar { raw: i64::MAX };
    let least = Scalar { raw: i64::MIN };
    assert_eq!(most + units(1), most);
    assert_eq!(least - units(1), least);
    assert_eq!(most * units(2), most);
    assert_eq!(most * units(2).negated(), least);
    assert_eq!(units(1) / units(0), most);
    assert_eq!(units(1).negated() / units(0), least);
    assert_eq!(least.negated(), most);
    assert_eq!(least.abs(), most);
}

#[test]
fn roots_and_rounding() {
    assert_eq!(units(9).sqrt(), units(3));
    assert_eq!(units(2).sqrt(), micro(1414213));
    assert_eq!(units(4).negated().sqrt(), units(0));
    assert_eq!(milli(2500).round(), units(3));
    assert_eq!(milli(2499).round(), units(2));
    assert_eq!(milli(2500).negated().round(), units(3).negated());
    assert_eq!(milli(2999).whole(), 2);
    assert_eq!(milli(2999).negated().whole(), -2);
}

#[test]
fn bounds() {
    assert_eq!(units(5).clamp(units(1), units(3)), units(3));
    assert_eq!(units(0).clamp(units(1), units(3)), units(1));
    assert_eq!(units(2).max(units(4)), units(4));
    assert_eq!(units(2).min(units(4)), units(2));
    assert!(milli(999) < units(1) && units(1) <= units(1));
}

#[test]
fn vectors() {
    let v = flat(units(3), units(4));
    assert_eq!(v.magnitude(), units(5));
    assert_eq!(v.norm_squared(), units(25));
    assert_eq!(v.normalize(), flat(milli(600), milli(800)));
    assert_eq!(v.direction(), Some(flat(milli(600), milli(800))));
    assert_eq!(flat(units(0), units(0)).direction(), None);
    assert_eq!(v.dot(vec3(units(1), units(2), units(3))), units(11));
    assert_eq!(v.distance_to(flat(units(3), units(1))), units(3));
    assert_eq!(v * units(2) - v, v);
}

#[test]
fn directions() {
    let ahead = flat(units(7), units(0));
    assert_eq!(alignment(ahead, flat(units(2), units(0))), Some(units(1)));
    assert_eq!(alignment(ahead, flat(units(0), units(2))), Some(units(0)));
    assert_eq!(alignment(ahead, flat(units(0), units(0))), None);
    assert!(aligned_above(ahead, flat(units(3), units(4)), milli(599)));
    assert!(!aligned_above(ahead, flat(units(3), units(4)), milli(600)));
    assert!(!aligned_above(ahead, flat(units(0), units(0)), units(1).negated()));
}

#[test]
fn movements() {
    let spot = flat(units(1), units(2));
    let push = flat(units(3), units(0));
    let moved = arrive(spot, units(5)).plus(push).scaled(units(2));
    assert_eq!(moved.factor, units(2));
    assert_eq!(moved.extra, Some(flat(units(6), units(0))));
    assert_eq!(moved.no_faster_than(units(4)).top_speed, Some(units(4)));
    assert_eq!(glide(flat(units(0), units(0))), still());
}

#[test]
fn no_gaps_without_players() {
    assert_eq!(gaps_between(&Vec::new()).len(), 0);
}
