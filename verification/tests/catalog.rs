use std::collections::HashSet;

use emoji_generator::catalog::{
    ACTIVITIES, ANIMALS, CATALOG_LEN, FACES, FOOD, NATURE, OBJECTS, PLACES, TECHNOLOGY,
    TRANSPORTATION, WEATHER,
};
use emoji_generator::EmojiGenerator;

/// The catalog in order: its groups one after the other.
fn symbols() -> Vec<&'static str> {
    let groups: [&[&'static str]; 10] = [
        &FACES,
        &ANIMALS,
        &FOOD,
        &ACTIVITIES,
        &OBJECTS,
        &WEATHER,
        &NATURE,
        &PLACES,
        &TRANSPORTATION,
        &TECHNOLOGY,
    ];
    groups.concat()
}

#[test]
fn catalog_has_its_stated_size() {
    assert_eq!(CATALOG_LEN, 304);
    assert_eq!(symbols().len(), 304);
    assert_eq!(EmojiGenerator::new().len(), 304);
}

#[test]
fn catalog_repeats_no_symbol() {
    let catalog = symbols();
    let seen: HashSet<&str> = catalog.iter().copied().collect();
    assert_eq!(seen.len(), catalog.len());
}

#[test]
fn catalog_holds_no_empty_symbol() {
    for symbol in symbols() {
        assert!(!symbol.is_empty());
    }
}

#[test]
fn catalog_starts_and_ends_as_listed() {
    let catalog = symbols();
    assert_eq!(catalog[0], "😀");
    assert_eq!(catalog[1], "😃");
    assert_eq!(catalog[13], "🇧🇩");
    assert_eq!(catalog[40], "🐶");
    assert_eq!(catalog[80], "🍎");
    assert_eq!(catalog[120], "⚽");
    assert_eq!(catalog[150], "⌚");
    assert_eq!(catalog[180], "☀️");
    assert_eq!(catalog[200], "🌱");
    assert_eq!(catalog[214], "🏠");
    assert_eq!(catalog[241], "🚗");
    assert_eq!(catalog[280], "🛰️");
    assert_eq!(catalog[303], "🏳️");
}

#[test]
fn catalog_tells_the_flags_apart() {
    let catalog = symbols();
    assert_eq!(catalog[298], "🏳️‍🌈");
    assert_eq!(catalog[299], "🏳️‍⚧️");
    assert_eq!(catalog[303], "🏳️");
    assert_eq!(catalog[298].chars().count(), 4);
    assert_eq!(catalog[299].chars().count(), 5);
    assert_eq!(catalog[303].chars().count(), 2);
    assert_eq!(catalog[298].chars().next(), catalog[303].chars().next());
    assert_eq!(catalog[299].chars().next(), catalog[303].chars().next());
    assert_ne!(catalog[298], catalog[303]);
    assert_ne!(catalog[299], catalog[303]);
    assert_ne!(catalog[298], catalog[299]);
}

#[test]
fn symbol_reads_the_catalog_in_order() {
    let generator = EmojiGenerator::new();
    for (i, expected) in symbols().iter().enumerate() {
        assert_eq!(generator.symbol(i), Some(*expected));
    }
}

#[test]
fn symbol_past_the_end_is_none() {
    let generator = EmojiGenerator::new();
    assert_eq!(generator.symbol(303), Some("🏳️"));
    assert_eq!(generator.symbol(304), None);
    assert_eq!(generator.symbol(305), None);
    assert_eq!(generator.symbol(usize::MAX), None);
}

#[test]
fn groups_have_their_sizes() {
    assert_eq!(FACES.len(), 40);
    assert_eq!(ANIMALS.len(), 40);
    assert_eq!(FOOD.len(), 40);
    assert_eq!(ACTIVITIES.len(), 30);
    assert_eq!(OBJECTS.len(), 30);
    assert_eq!(WEATHER.len(), 20);
    assert_eq!(NATURE.len(), 14);
    assert_eq!(PLACES.len(), 27);
    assert_eq!(TRANSPORTATION.len(), 39);
    assert_eq!(TECHNOLOGY.len(), 24);
}

#[test]
fn groups_share_no_symbol() {
    let groups: [&[&'static str]; 10] = [
        &FACES,
        &ANIMALS,
        &FOOD,
        &ACTIVITIES,
        &OBJECTS,
        &WEATHER,
        &NATURE,
        &PLACES,
        &TRANSPORTATION,
        &TECHNOLOGY,
    ];
    for (a, first) in groups.iter().enumerate() {
        for second in groups.iter().skip(a + 1) {
            for symbol in first.iter() {
                assert!(!second.contains(symbol));
            }
        }
    }
}
