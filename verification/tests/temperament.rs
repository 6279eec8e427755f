use pipecalc::Pitch;
use pipecalc::Temperament;

#[test]
fn test_pitches() {
    let pitch = Pitch::from(0, 4);
    let pitch = pitch.add(1200);
    assert!(pitch.difference_to(&Pitch { note: 0, octave: 5, cents: 0 }) == 0);

    let pitch = Pitch::from(2, 4);
    let pitch = pitch.add(200);
    assert!(pitch.difference_to(&Pitch { note: 4, octave: 4, cents: 0 }) == 0);

    let pitch = Pitch::from(2, 4);
    let pitch = pitch.add(-200);
    assert!(pitch.difference_to(&Pitch { note: 0, octave: 4, cents: 0 }) == 0);
}

#[test]
fn test_normalization_folds_cents_and_notes() {
    let p = Pitch::from_with_cents(0, 4, 250);
    assert_eq!((p.note, p.octave, p.cents), (2, 4, 50));

    let p = Pitch::from_with_cents(0, 4, -250);
    assert_eq!((p.note, p.octave, p.cents), (10, 3, -50));

    let p = Pitch::from(12, 4);
    assert_eq!((p.note, p.octave, p.cents), (0, 5, 0));

    let p = Pitch::from(-1, 4);
    assert_eq!((p.note, p.octave, p.cents), (11, 3, 0));

    let p = Pitch::from_with_cents(11, 4, 150);
    assert_eq!((p.note, p.octave, p.cents), (0, 5, 50));
}

#[test]
fn test_normalization_boundary_cents() {
    let p = Pitch::from_with_cents(0, 4, 100);
    assert_eq!((p.note, p.octave, p.cents), (1, 4, 0));

    let p = Pitch::from_with_cents(0, 4, -100);
    assert_eq!((p.note, p.octave, p.cents), (11, 3, 0));

    let p = Pitch::from_with_cents(0, 4, 99);
    assert_eq!((p.note, p.octave, p.cents), (0, 4, 99));

    let p = Pitch::from_with_cents(0, 4, -99);
    assert_eq!((p.note, p.octave, p.cents), (0, 4, -99));
}

#[test]
fn test_normalization_idempotent() {
    let mut p = Pitch::from_with_cents(7, 3, 55);
    let before = p;
    p.normalize();
    assert_eq!(p, before);

    let mut q = Pitch::from_with_cents(3, -2, -4575);
    let before = q;
    q.normalize();
    assert_eq!(q, before);
}

#[test]
fn test_normalization_multi_octave_shift() {
    let p = Pitch::from(0, 4).add(12_345);
    assert_eq!(p.difference_to(&Pitch::from(0, 4)), 12_345);
    assert_eq!((p.note, p.octave, p.cents), (3, 14, 45));

    let p = Pitch::from(0, 4).add(-12_345);
    assert_eq!(p.difference_to(&Pitch::from(0, 4)), -12_345);
    assert_eq!((p.note, p.octave, p.cents), (9, -7, -45));
}

#[test]
fn test_difference_antisymmetry() {
    let a = Pitch::from_with_cents(3, 2, 40);
    let b = Pitch::from_with_cents(10, 6, -15);
    assert_eq!(a.difference_to(&b), -b.difference_to(&a));
    assert_eq!(a.difference_to(&a), 0);
}

#[test]
fn test_difference_exact_values() {
    let a4 = Pitch::from(9, 4);
    let c0 = Pitch { note: 0, octave: 0, cents: 0 };
    assert_eq!(a4.difference_to(&c0), 5700);

    let c2 = Pitch::from(0, 2);
    assert_eq!(a4.difference_to(&c2), 3300);
    assert_eq!(c2.difference_to(&a4), -3300);
}

#[test]
fn test_octave_add_consistency() {
    let shifted = Pitch::from(0, 4).add(1200);
    assert_eq!(shifted.difference_to(&Pitch::from(0, 5)), 0);
    assert_eq!(shifted, Pitch::from(0, 5));

    let back = shifted.add(-1200);
    assert_eq!(back, Pitch::from(0, 4));
}

#[test]
fn test_equal_temperament_anchor() {
    let t = Temperament::new_default_equal();
    let base = t.get_base_note();
    assert_eq!((base.note, base.octave, base.cents), (9, 4, 0));
    assert_eq!(t.get_base_frequency_millihertz(), 440_000);

    let t = Temperament::new_freq_equal(415_305);
    let base = t.get_base_note();
    assert_eq!((base.note, base.octave, base.cents), (9, 4, 0));
    assert_eq!(t.get_base_frequency_millihertz(), 415_305);
}

#[test]
fn test_steps_above_base() {
    let t = Temperament::new_default_equal();
    let c5 = Pitch::from(0, 5);
    assert_eq!(c5.difference_to(&t.get_base_note()), 300);
}
