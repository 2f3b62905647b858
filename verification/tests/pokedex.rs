use tile_engine::pokedex::{create_kanto_dex, kanto_numbers, DexNumber, Pokedex, KANTO_ENTRIES};

/// Splits at full stops and parses the first two parts with std.
fn by_std(text: &str) -> DexNumber {
    let parts: Vec<&str> = text.split('.').collect();
    let dex_number = parts.first().and_then(|p| p.parse::<u8>().ok()).unwrap_or(0);
    let dex_variant = parts.get(1).and_then(|p| p.parse::<u8>().ok()).unwrap_or(0);
    DexNumber { dex_number, dex_variant }
}

fn number(dex_number: u8, dex_variant: u8) -> DexNumber {
    DexNumber { dex_number, dex_variant }
}

#[test]
fn a_dex_number_has_species_and_variant() {
    assert_eq!(DexNumber::from_decimal_text("3.1"), number(3, 1));
    assert_eq!(DexNumber::from_decimal_text("6.2"), number(6, 2));
    assert_eq!(DexNumber::from_decimal_text("151.0"), number(151, 0));
    assert_eq!(DexNumber::from_decimal_text("255.255"), number(255, 255));
}

#[test]
fn a_whole_number_has_variant_zero() {
    assert_eq!(DexNumber::from_decimal_text("1"), number(1, 0));
    assert_eq!(DexNumber::from_decimal_text("25"), number(25, 0));
    assert_eq!(DexNumber::from_decimal_text("5."), number(5, 0));
}

#[test]
fn what_is_no_byte_counts_as_zero() {
    assert_eq!(DexNumber::from_decimal_text(""), number(0, 0));
    assert_eq!(DexNumber::from_decimal_text("."), number(0, 0));
    assert_eq!(DexNumber::from_decimal_text(".5"), number(0, 5));
    assert_eq!(DexNumber::from_decimal_text("256.1"), number(0, 1));
    assert_eq!(DexNumber::from_decimal_text("1.256"), number(1, 0));
    assert_eq!(DexNumber::from_decimal_text("-1.5"), number(0, 5));
    assert_eq!(DexNumber::from_decimal_text("NaN"), number(0, 0));
    assert_eq!(DexNumber::from_decimal_text("inf"), number(0, 0));
    assert_eq!(DexNumber::from_decimal_text("1x.2"), number(0, 2));
    assert_eq!(DexNumber::from_decimal_text("+.+"), number(0, 0));
    assert_eq!(DexNumber::from_decimal_text("99999999999999999999.1"), number(0, 1));
}

#[test]
fn only_the_first_two_parts_count() {
    assert_eq!(DexNumber::from_decimal_text("1.2.3"), number(1, 2));
    assert_eq!(DexNumber::from_decimal_text("1..3"), number(1, 0));
    assert_eq!(DexNumber::from_decimal_text("+7.+8"), number(7, 8));
    assert_eq!(DexNumber::from_decimal_text("007.010"), number(7, 10));
}

#[test]
fn reading_agrees_with_std() {
    let pieces = ["", "0", "1", "9", "25", "255", "256", "+", "+3", "-3", "a", "0001", "３", "99", "1e3"];
    for a in pieces {
        assert_eq!(DexNumber::from_decimal_text(a), by_std(a), "{a:?}");
        for b in pieces {
            let text = format!("{a}.{b}");
            assert_eq!(DexNumber::from_decimal_text(&text), by_std(&text), "{text:?}");
            let more = format!("{a}.{b}.{a}");
            assert_eq!(DexNumber::from_decimal_text(&more), by_std(&more), "{more:?}");
        }
    }
    for n in 0..1000u32 {
        let text = n.to_string();
        assert_eq!(DexNumber::from_decimal_text(&text), by_std(&text));
    }
}

#[test]
fn the_text_of_a_float_is_read() {
    for (value, expected) in [(1.0f32, number(1, 0)), (3.1, number(3, 1)), (6.2, number(6, 2))] {
        assert_eq!(DexNumber::from_decimal_text(&value.to_string()), expected);
    }
}

#[test]
fn keys_hold_species_and_variant_side_by_side() {
    assert_eq!(number(0, 0).to_key(), 0);
    assert_eq!(number(3, 1).to_key(), 769);
    assert_eq!(number(255, 255).to_key(), 65535);
    assert_ne!(number(1, 0).to_key(), number(0, 1).to_key());
}

#[test]
fn a_new_pokedex_is_empty() {
    let dex: Pokedex<&str> = Pokedex::new();
    assert!(dex.pokemon.is_empty());
    assert_eq!(dex.get_pokemon(number(1, 0)), None);
}

#[test]
fn a_record_is_found_under_its_number() {
    let mut dex = Pokedex::new();
    dex.insert_pokemon(number(3, 0), "VENUSAUR");
    dex.insert_pokemon(number(3, 1), "MEGA_VENUSAUR");
    assert_eq!(dex.get_pokemon(number(3, 0)), Some(&"VENUSAUR"));
    assert_eq!(dex.get_pokemon(number(3, 1)), Some(&"MEGA_VENUSAUR"));
    assert_eq!(dex.get_pokemon(number(3, 2)), None);
    dex.insert_pokemon(number(3, 0), "replaced");
    assert_eq!(dex.get_pokemon(number(3, 0)), Some(&"replaced"));
    assert_eq!(dex.pokemon.len(), 2);
}

#[test]
fn the_kanto_dex_has_nine_entries() {
    let numbers = kanto_numbers();
    assert_eq!(numbers.len(), KANTO_ENTRIES);
    assert_eq!(
        numbers,
        vec![
            number(1, 0),
            number(2, 0),
            number(3, 0),
            number(3, 1),
            number(4, 0),
            number(5, 0),
            number(6, 0),
            number(6, 1),
            number(6, 2),
        ]
    );
    let names = vec![
        "BULBASAUR",
        "IVYSAUR",
        "VENUSAUR",
        "MEGA_VENUSAUR",
        "CHARMANDER",
        "CHARMELEON",
        "CHARIZARD",
        "MEGA_CHARIZARD_X",
        "MEGA_CHARIZARD_Y",
    ];
    let dex = create_kanto_dex(names.clone());
    assert_eq!(dex.pokemon.len(), 9);
    for (k, name) in names.iter().enumerate() {
        assert_eq!(dex.get_pokemon(numbers[k]), Some(name));
    }
    assert_eq!(dex.get_pokemon(DexNumber::from_decimal_text("6.1")), Some(&"MEGA_CHARIZARD_X"));
    assert_eq!(dex.get_pokemon(number(7, 0)), None);
}
