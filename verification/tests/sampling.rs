use std::collections::HashSet;

use emoji_generator::catalog::{
    ACTIVITIES, ANIMALS, CATALOG_LEN, FACES, FOOD, NATURE, OBJECTS, PLACES, TECHNOLOGY,
    TRANSPORTATION, WEATHER,
};
use emoji_generator::EmojiGenerator;

/// The catalog in order: its groups one after the other.
fn symbols() -> Vec<&'static str> {
    let groups: [&[&'static str]; 10] = [
        &FACES,
        &ANIMALS,
        &FOOD,
        &ACTIVITIES,
        &OBJECTS,
        &WEATHER,
        &NATURE,
        &PLACES,
        &TRANSPORTATION,
        &TECHNOLOGY,
    ];
    groups.concat()
}

fn in_catalog(symbol: &str) -> bool {
    symbols().iter().any(|s| *s == symbol)
}

fn distinct(sample: &[String]) -> bool {
    let seen: HashSet<&String> = sample.iter().collect();
    seen.len() == sample.len()
}

#[test]
fn test_generate_set() {
    let generator = EmojiGenerator::new();
    let emojis = generator.generate(5);
    assert_eq!(emojis.len(), 5);
}

#[test]
fn generate_returns_as_many_as_asked_for() {
    let generator = EmojiGenerator::new();
    for count in [0usize, 1, 2, 5, 17, 100, 303, 304] {
        assert_eq!(generator.generate(count).len(), count);
    }
}

#[test]
fn generate_returns_every_count_up_to_the_catalog() {
    let generator = EmojiGenerator::new();
    for count in 0..=CATALOG_LEN {
        assert_eq!(generator.generate(count).len(), count);
    }
}

#[test]
fn generate_clamps_to_the_catalog_size() {
    let generator = EmojiGenerator::new();
    for count in [305usize, 306, 1000, 1 << 20, usize::MAX - 1, usize::MAX] {
        assert_eq!(generator.generate(count).len(), 304);
    }
}

#[test]
fn generate_zero_is_empty() {
    let generator = EmojiGenerator::new();
    let emojis = generator.generate(0);
    assert!(emojis.is_empty());
    assert_eq!(emojis, Vec::<String>::new());
}

#[test]
fn generate_never_repeats_a_symbol() {
    let generator = EmojiGenerator::new();
    for count in [1usize, 2, 5, 50, 152, 303, 304, 1000] {
        for _ in 0..20 {
            let emojis = generator.generate(count);
            assert!(distinct(&emojis));
        }
    }
}

#[test]
fn generate_returns_symbols_of_the_catalog() {
    let generator = EmojiGenerator::new();
    for count in [1usize, 5, 50, 304, 1000] {
        let emojis = generator.generate(count);
        for emoji in &emojis {
            assert!(in_catalog(emoji));
        }
    }
}

#[test]
fn generate_beyond_the_catalog_returns_all_of_it() {
    let generator = EmojiGenerator::new();
    let mut expected: Vec<String> = symbols().iter().map(|s| s.to_string()).collect();
    expected.sort();
    for count in [304usize, 305, 5000, usize::MAX] {
        let mut emojis = generator.generate(count);
        assert_eq!(emojis.len(), 304);
        emojis.sort();
        assert_eq!(emojis, expected);
    }
}

#[test]
fn generate_five_gives_five_distinct_symbols_of_the_catalog() {
    let generator = EmojiGenerator::new();
    let emojis = generator.generate(5);
    assert_eq!(emojis.len(), 5);
    assert!(distinct(&emojis));
    for emoji in &emojis {
        assert!(in_catalog(emoji));
    }
}

#[test]
fn generate_does_not_keep_catalog_order() {
    let generator = EmojiGenerator::new();
    let in_order: Vec<String> = symbols().iter().map(|s| s.to_string()).collect();
    let mut shuffled = false;
    for _ in 0..5 {
        if generator.generate(304) != in_order {
            shuffled = true;
        }
    }
    assert!(shuffled);
}

#[test]
fn generate_varies_between_calls() {
    let generator = EmojiGenerator::new();
    let first = generator.generate(40);
    let mut differs = false;
    for _ in 0..5 {
        if generator.generate(40) != first {
            differs = true;
        }
    }
    assert!(differs);
}

#[test]
fn generate_picks_every_symbol_about_equally_often() {
    let generator = EmojiGenerator::new();
    let catalog = symbols();
    let rounds = 3000usize;
    let count = 76usize;
    let mut hits = vec![0usize; CATALOG_LEN];
    for _ in 0..rounds {
        for emoji in generator.generate(count) {
            let at = catalog.iter().position(|s| *s == emoji).unwrap();
            hits[at] += 1;
        }
    }
    assert_eq!(hits.iter().sum::<usize>(), rounds * count);
    let expected = (rounds * count) as f64 / CATALOG_LEN as f64;
    for n in hits {
        let seen = n as f64;
        assert!(seen > expected * 0.7 && seen < expected * 1.3);
    }
}

#[test]
fn generate_fills_every_place_about_equally_often() {
    let generator = EmojiGenerator::new();
    let catalog = symbols();
    let rounds = 30000usize;
    let mut first_half = 0usize;
    let mut last_symbol_in_front = 0usize;
    for _ in 0..rounds {
        let emojis = generator.generate(1);
        let at = catalog.iter().position(|s| *s == emojis[0]).unwrap();
        if at < CATALOG_LEN / 2 {
            first_half += 1;
        }
        if at == CATALOG_LEN - 1 {
            last_symbol_in_front += 1;
        }
    }
    let share = first_half as f64 / rounds as f64;
    assert!(share > 0.45 && share < 0.55);
    let expected = rounds as f64 / CATALOG_LEN as f64;
    let seen = last_symbol_in_front as f64;
    assert!(seen > expected * 0.5 && seen < expected * 1.5);
}

#[test]
fn default_is_the_same_generator_as_new() {
    let made = EmojiGenerator::new();
    let default = EmojiGenerator::default();
    assert_eq!(made.len(), default.len());
    for i in 0..made.len() {
        assert_eq!(made.symbol(i), default.symbol(i));
    }
    assert_eq!(default.generate(7).len(), 7);
}
