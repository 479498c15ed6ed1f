use noise_art::{
    add_wrap, div_trunc, hash_terms, irand, mul_wrap, rem_trunc, sub_wrap, wrapping_abs,
    HashError, HashTerms, Profile,
};

#[test]
fn irand_scrambles_small_seeds() {
    assert_eq!(irand(1), 6623);
    assert_eq!(irand(2), 13246);
    assert_eq!(irand(3), 19869);
    assert_eq!(irand(7), 46361);
    assert_eq!(irand(8), 52984);
    assert_eq!(irand(0), 0);
}

#[test]
fn irand_follows_sign_and_wraps() {
    assert_eq!(irand(-1), -6623);
    assert_eq!(irand(1000), -1996);
}

#[test]
fn wrapping_helpers() {
    assert_eq!(add_wrap(i32::MAX, 1), i32::MIN);
    assert_eq!(sub_wrap(i32::MIN, 1), i32::MAX);
    assert_eq!(mul_wrap(1000, 7654321), -935613592);
    assert_eq!(wrapping_abs(i32::MIN), i32::MIN);
    assert_eq!(wrapping_abs(-42), 42);
}

#[test]
fn division_truncates_toward_zero() {
    assert_eq!(div_trunc(-7, 2), -3);
    assert_eq!(div_trunc(7, -2), -3);
    assert_eq!(div_trunc(-7, -2), 3);
    assert_eq!(rem_trunc(-7, 2), -1);
    assert_eq!(rem_trunc(7, -2), 1);
    assert_eq!(rem_trunc(-7, -2), -1);
}

#[test]
fn hash_terms_at_origin() {
    let t = hash_terms(0, 0, 1, &Profile::angular()).unwrap();
    assert_eq!(t, HashTerms { seed: 6623, z: -6623, a: 1, b: 0, q: 0, lin: 0 });
}

#[test]
fn hash_terms_angular_profile() {
    let p = Profile::angular();
    assert_eq!(
        hash_terms(5, 7, 2, &p),
        Ok(HashTerms { seed: 13246, z: 17607, a: 88036, b: 0, q: 0, lin: -370842 })
    );
    assert_eq!(
        hash_terms(37, -11, 8, &p),
        Ok(HashTerms { seed: 52984, z: -30649, a: -1134012, b: 0, q: 0, lin: -14305528 })
    );
    assert_eq!(
        hash_terms(30000, 5, 1, &p),
        Ok(HashTerms { seed: 6623, z: 19841, a: 595230001, b: 0, q: 8, lin: -1390646870 })
    );
}

#[test]
fn hash_terms_direct_profile() {
    let p = Profile::direct();
    assert_eq!(
        hash_terms(1000, 2000, 3, &p),
        Ok(HashTerms { seed: 19869, z: -24975, a: -24974999, b: 0, q: 0, lin: -99334000 })
    );
    assert_eq!(
        hash_terms(-300, 450, 7, &p),
        Ok(HashTerms { seed: 46361, z: 14582, a: -4374599, b: 0, q: 0, lin: 118220400 })
    );
    assert_eq!(
        hash_terms(70000, 123, 2, &p),
        Ok(HashTerms { seed: 13246, z: 21795, a: 1525650001, b: 0, q: 1, lin: 2101374219 })
    );
}

#[test]
fn hash_terms_at_extreme_coordinates() {
    assert_eq!(
        hash_terms(i32::MAX, i32::MIN, 1, &Profile::angular()),
        Ok(HashTerms { seed: 6623, z: 14312, a: -14311, b: -1, q: 0, lin: 46356 })
    );
}

#[test]
fn hash_terms_zero_seed_has_no_quotient() {
    assert_eq!(hash_terms(3, 4, 0, &Profile::angular()), Err(HashError::ZeroDivisor));
    assert_eq!(hash_terms(3, 4, 0, &Profile::direct()), Err(HashError::ZeroDivisor));
}

#[test]
fn hash_terms_are_deterministic() {
    let p = Profile::angular();
    for (x, y, s) in [(0, 0, 1), (17, 93, 2), (-40, 12, 7), (1919, 539, 8)] {
        assert_eq!(hash_terms(x, y, s, &p), hash_terms(x, y, s, &p));
    }
}
