use modint::Unsigned;
use typenum::U17;

type M17 = Unsigned<u8, U17>;

#[test]
fn construct() {
    assert_eq!(M17::from(1).value(), 1);
    assert_eq!(M17::from(4).value(), 4);
    assert_eq!(M17::from(17).value(), 0);
    assert_eq!(M17::from(18).value(), 1);
}

#[test]
fn add() {
    assert_eq!(M17::from(1) + M17::from(1), M17::from(2));
    assert_eq!(M17::from(16) + M17::from(1), M17::from(0));
    assert_eq!(M17::from(1) + M17::from(17), M17::from(1));
    assert_eq!(M17::from(1) + M17::from(35), M17::from(2));
}

#[test]
fn sub() {
    assert_eq!(M17::from(2) - M17::from(1), M17::from(1));
    assert_eq!(M17::from(1) - M17::from(3), M17::from(15));
    assert_eq!(M17::from(15) - M17::from(16), M17::from(16));
    assert_eq!(M17::from(11) - M17::from(17), M17::from(11));
}

#[test]
fn mul() {
    assert_eq!(M17::from(2) * M17::from(2), M17::from(4));
    assert_eq!(M17::from(5) * M17::from(4), M17::from(3));
}

#[test]
fn construct_is_canonical_for_every_raw_value() {
    for raw in 0..=u8::MAX {
        let value = M17::from(raw).value();
        assert!(value < 17);
        assert_eq!(value, raw % 17);
    }
}

#[test]
fn construct_is_idempotent() {
    for raw in 0..=u8::MAX {
        let once = M17::from(raw);
        assert_eq!(M17::from(once.value()), once);
    }
}

#[test]
fn add_raw_values() {
    assert_eq!((M17::from(9) + M17::from(9)).value(), 1);
    assert_eq!((M17::from(16) + M17::from(16)).value(), 15);
    assert_eq!((M17::from(0) + M17::from(0)).value(), 0);
}

#[test]
fn sub_borrows_one_modulus() {
    assert_eq!((M17::from(0) - M17::from(16)).value(), 1);
    assert_eq!((M17::from(0) - M17::from(1)).value(), 16);
    assert_eq!((M17::from(16) - M17::from(0)).value(), 16);
}

#[test]
fn sub_undoes_add() {
    for x in 0..17u8 {
        for y in 0..17u8 {
            let a = M17::from(x);
            let b = M17::from(y);
            assert_eq!((a + b) - b, a);
            assert_eq!(((a + b) - b).value(), x);
        }
    }
}

#[test]
fn canonical_integers_are_stored_unchanged() {
    for raw in 0..17u8 {
        assert_eq!(M17::from(raw).value(), raw);
    }
}

#[test]
fn sub_of_itself_is_zero() {
    for raw in 0..17u8 {
        let a = M17::from(raw);
        assert_eq!(a - a, M17::zero());
    }
}

#[test]
fn mul_raw_values() {
    assert_eq!((M17::from(15) * M17::from(15)).value(), 4);
    assert_eq!((M17::from(16) * M17::from(15)).value(), 2);
    assert_eq!((M17::from(0) * M17::from(16)).value(), 0);
}

#[test]
fn mul_truncates_at_the_storage_width() {
    // 16 * 16 is 256, which eight bits hold as 0; modulo 17 it would be 1.
    assert_eq!((M17::from(16) * M17::from(16)).value(), 0);
}

#[test]
fn add_truncates_at_the_storage_width() {
    type M200 = Unsigned<u8, typenum::U200>;
    // 150 + 150 is 300, which eight bits hold as 44; modulo 200 it would be 100.
    assert_eq!((M200::from(150) + M200::from(150)).value(), 44);
    assert_eq!((M200::from(100) + M200::from(155)).value(), 55);
}

#[test]
fn div_is_integer_division_of_the_representatives() {
    assert_eq!(M17::from(16) / M17::from(3), M17::from(5));
    assert_eq!(M17::from(3) / M17::from(16), M17::from(0));
    assert_eq!(M17::from(7) / M17::from(7), M17::from(1));
    assert_eq!((M17::from(33) / M17::from(2)).value(), 8);
}

#[test]
fn rem_is_the_remainder_of_the_representatives() {
    assert_eq!(M17::from(16) % M17::from(3), M17::from(1));
    assert_eq!(M17::from(3) % M17::from(16), M17::from(3));
    assert_eq!(M17::from(7) % M17::from(7), M17::from(0));
    assert_eq!((M17::from(33) % M17::from(5)).value(), 1);
}

#[test]
fn add_and_mul_are_commutative() {
    for x in 0..17u8 {
        for y in 0..17u8 {
            let a = M17::from(x);
            let b = M17::from(y);
            assert_eq!(a + b, b + a);
            assert_eq!(a * b, b * a);
        }
    }
}

#[test]
fn add_is_associative_where_nothing_is_truncated() {
    for x in 0..17u8 {
        for y in 0..17u8 {
            for z in 0..17u8 {
                let a = M17::from(x);
                let b = M17::from(y);
                let c = M17::from(z);
                assert_eq!((a + b) + c, a + (b + c));
                assert_eq!(((a + b) + c).value(), (x + y + z) % 17);
            }
        }
    }
}

#[test]
fn mul_is_associative_where_nothing_is_truncated() {
    let mut checked = 0;
    for x in 0..17u32 {
        for y in 0..17u32 {
            for z in 0..17u32 {
                let fits = x * y < 256
                    && y * z < 256
                    && (x * y % 17) * z < 256
                    && x * (y * z % 17) < 256;
                if fits {
                    let a = M17::from(x as u8);
                    let b = M17::from(y as u8);
                    let c = M17::from(z as u8);
                    assert_eq!((a * b) * c, a * (b * c));
                    assert_eq!(((a * b) * c).value() as u32, x * y * z % 17);
                    checked += 1;
                }
            }
        }
    }
    assert!(checked > 4000);
    let a = M17::from(3);
    let b = M17::from(5);
    let c = M17::from(7);
    assert_eq!(((a * b) * c).value(), 3);
    assert_eq!((a * (b * c)).value(), 3);
}

#[test]
fn truncated_operations_need_not_associate() {
    type M200 = Unsigned<u8, typenum::U200>;
    let a = M200::from(150);
    let b = M200::from(150);
    let c = M200::from(50);
    assert_eq!(((a + b) + c).value(), 94);
    assert_eq!((a + (b + c)).value(), 150);
    let p = M17::from(16);
    let q = M17::from(2);
    assert_eq!(((p * p) * q).value(), 0);
    assert_eq!((p * (p * q)).value(), 2);
}

#[test]
fn equal_losses_on_both_sides_still_associate() {
    type M200 = Unsigned<u8, typenum::U200>;
    let a = M200::from(199);
    // Either side loses 256 twice: 398 is held as 142, and 341 as 85.
    assert_eq!(((a + a) + a).value(), 85);
    assert_eq!((a + (a + a)).value(), 85);
    for x in 0..200u32 {
        for y in [0u32, 1, 56, 57, 100, 199] {
            for z in [0u32, 55, 56, 128, 199] {
                let sum = |p: u32, q: u32| (p + q) % 256 % 200;
                let loss = |p: u32, q: u32| (p + q) - (p + q) % 256;
                let left = loss(x, y) + loss(sum(x, y), z);
                let right = loss(y, z) + loss(x, sum(y, z));
                let a = M200::from(x as u8);
                let b = M200::from(y as u8);
                let c = M200::from(z as u8);
                assert_eq!((a + b) + c == a + (b + c), left % 200 == right % 200);
            }
        }
    }
}

#[test]
fn products_associate_exactly_where_the_losses_agree() {
    for x in 0..17u32 {
        for y in 0..17u32 {
            for z in 0..17u32 {
                let product = |p: u32, q: u32| (p * q) % 256 % 17;
                let loss = |p: u32, q: u32| (p * q) - (p * q) % 256;
                let left = loss(x, y) * z + loss(product(x, y), z);
                let right = x * loss(y, z) + loss(x, product(y, z));
                let a = M17::from(x as u8);
                let b = M17::from(y as u8);
                let c = M17::from(z as u8);
                assert_eq!((a * b) * c == a * (b * c), left % 17 == right % 17);
            }
        }
    }
}

#[test]
fn zero_and_one_are_identities() {
    for raw in 0..17u8 {
        let a = M17::from(raw);
        assert_eq!(a + M17::zero(), a);
        assert_eq!(M17::zero() + a, a);
        assert_eq!(a * M17::one(), a);
        assert_eq!(M17::one() * a, a);
    }
}

#[test]
fn zero_one_and_is_zero() {
    assert_eq!(M17::zero().value(), 0);
    assert_eq!(M17::one().value(), 1);
    assert!(M17::zero().is_zero());
    assert!(!M17::one().is_zero());
    assert!(M17::from(17).is_zero());
    assert!(M17::from(34).is_zero());
    assert!(!M17::from(16).is_zero());
}

#[test]
fn modulus_one_has_a_single_value() {
    type M1 = Unsigned<u8, typenum::U1>;
    assert_eq!(M1::from(200).value(), 0);
    assert_eq!(M1::one().value(), 0);
    assert_eq!(M1::one(), M1::zero());
    assert!(M1::one().is_zero());
    assert_eq!((M1::from(3) + M1::from(4)).value(), 0);
    assert_eq!((M1::from(3) * M1::one()).value(), 0);
    assert_eq!((M1::from(3) - M1::from(4)).value(), 0);
}

#[test]
fn largest_modulus_of_a_width() {
    type M255 = Unsigned<u8, typenum::U255>;
    assert_eq!(M255::from(255).value(), 0);
    assert_eq!(M255::from(254).value(), 254);
    assert_eq!((M255::from(0) - M255::from(1)).value(), 254);
    assert_eq!((M255::from(1) + M255::from(253)).value(), 254);
    assert_eq!((M255::from(1) + M255::from(254)).value(), 0);
}

#[test]
fn equality_and_order_follow_the_representatives() {
    for x in 0..=u8::MAX {
        for y in [0u8, 1, 16, 17, 18, 33, 34, 255] {
            let a = M17::from(x);
            let b = M17::from(y);
            assert_eq!(a == b, a.value() == b.value());
            assert_eq!(a != b, a.value() != b.value());
            assert_eq!(a < b, a.value() < b.value());
            assert_eq!(a <= b, a.value() <= b.value());
            assert_eq!(a > b, a.value() > b.value());
            assert_eq!(a >= b, a.value() >= b.value());
            assert_eq!(a.partial_cmp(&b), Some(a.value().cmp(&b.value())));
            assert_eq!(a.cmp(&b), a.value().cmp(&b.value()));
        }
    }
    assert!(M17::from(18) < M17::from(16));
    assert_eq!(M17::from(18), M17::from(35));
}

#[test]
fn modulus_takes_no_room() {
    assert_eq!(std::mem::size_of::<M17>(), std::mem::size_of::<u8>());
    assert_eq!(
        std::mem::size_of::<Unsigned<u64, typenum::U1000000000000>>(),
        std::mem::size_of::<u64>()
    );
}

#[test]
fn values_are_freely_copied() {
    let a = M17::from(5);
    let b = a;
    let c = a.clone();
    assert_eq!(a, b);
    assert_eq!(a, c);
    assert_eq!(format!("{:?}", a.value()), "5");
}
