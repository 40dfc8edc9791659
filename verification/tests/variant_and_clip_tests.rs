use soundboard::softclip::SoftClip;
use soundboard::variants::choose_variant;

#[test]
fn chosen_variant_is_in_range() {
    let mut rng = rand::rng();
    for _ in 0..200 {
        let index = choose_variant(&mut rng, 5);
        assert!(index < 5);
    }
}

#[test]
fn single_variant_is_always_chosen() {
    let mut rng = rand::rng();
    for _ in 0..20 {
        assert_eq!(choose_variant(&mut rng, 1), 0);
    }
}

#[test]
fn all_variants_get_chosen() {
    let mut rng = rand::rng();
    let mut seen = [false; 5];
    for _ in 0..2000 {
        seen[choose_variant(&mut rng, 5)] = true;
    }
    assert!(seen.iter().all(|s| *s));
}

#[test]
fn soft_clip_wraps_and_unwraps() {
    let clip = SoftClip::new(vec![1u8, 2, 3]);
    assert_eq!(clip.into_inner(), vec![1u8, 2, 3]);
}
