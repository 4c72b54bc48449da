use rustris_shell::colour::{texture_name, Colour, FALLBACK_TEXTURE};

#[test]
fn texture_names_of_palette() {
    assert_eq!(texture_name(Colour::Wall), "wall.png");
    let expected = ["0.png", "1.png", "2.png", "3.png", "4.png", "5.png", "6.png"];
    for (n, name) in expected.iter().enumerate() {
        assert_eq!(texture_name(Colour::Value(n as isize)), *name);
    }
}

#[test]
fn texture_names_are_distinct_and_stable() {
    let mut colours = vec![Colour::Wall];
    for n in 0..7 {
        colours.push(Colour::Value(n));
    }
    for a in &colours {
        assert_eq!(texture_name(*a), texture_name(*a));
        assert_ne!(texture_name(*a), FALLBACK_TEXTURE);
        for b in &colours {
            if a != b {
                assert_ne!(texture_name(*a), texture_name(*b));
            }
        }
    }
}

#[test]
fn texture_name_fallback_outside_palette() {
    assert_eq!(texture_name(Colour::Value(7)), "none.png");
    assert_eq!(texture_name(Colour::Value(-1)), "none.png");
    assert_eq!(texture_name(Colour::Value(isize::MAX)), "none.png");
    assert_eq!(texture_name(Colour::Value(isize::MIN)), "none.png");
}
