use midi_router::lookup::{find_named, take_named};

fn names(v: &[Option<&str>]) -> Vec<Option<String>> {
    v.iter().map(|n| n.map(|s| s.to_string())).collect()
}

#[test]
fn absent_name_finds_nothing() {
    let n = names(&[Some("Synth A"), Some("Synth B")]);
    assert_eq!(find_named(&n, "Synth C"), None);
    assert_eq!(take_named(vec![10u32, 20], &n, "Synth C"), None);
}

#[test]
fn no_ports_finds_nothing() {
    let n = names(&[]);
    assert_eq!(find_named(&n, "Synth A"), None);
    assert_eq!(take_named(Vec::<u32>::new(), &n, "Synth A"), None);
}

#[test]
fn name_present_once_finds_its_port() {
    let n = names(&[Some("Synth A"), Some("Synth B"), Some("Drums")]);
    assert_eq!(find_named(&n, "Synth B"), Some(1));
    assert_eq!(take_named(vec![10u32, 20, 30], &n, "Synth B"), Some(20));
    assert_eq!(take_named(vec![10u32, 20, 30], &n, "Drums"), Some(30));
}

#[test]
fn match_is_exact() {
    let n = names(&[Some("Synth A"), Some("synth b")]);
    assert_eq!(find_named(&n, "Synth"), None);
    assert_eq!(find_named(&n, "Synth B"), None);
    assert_eq!(find_named(&n, "Synth A "), None);
}

#[test]
fn duplicate_names_first_wins() {
    let n = names(&[Some("Dup"), Some("Other"), Some("Dup")]);
    assert_eq!(find_named(&n, "Dup"), Some(0));
    assert_eq!(take_named(vec![1u8, 2, 3], &n, "Dup"), Some(1));
}

#[test]
fn unreadable_name_never_matches() {
    let n = names(&[None, Some("Synth A")]);
    assert_eq!(find_named(&n, "Synth A"), Some(1));
    assert_eq!(take_named(vec![7u32, 8], &n, "Synth A"), Some(8));
    assert_eq!(find_named(&n, ""), None);
}
