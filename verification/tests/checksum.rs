use descriptor_checksum::checksum::{get_checksum, Error};

const INPUT_CHARSET: &str = "0123456789()[],'/*abcdefgh@:$%{}IJKLMNOPQRSTUVWXYZ&+-.;<=>?!^_|~ijklmnopqrstuvwxyzABCDEFGH`#\"\\ ";
const CHECKSUM_CHARSET: &str = "qpzry9x8gf2tvdw0s3jn54khce6mua7l";

#[test]
fn known_vector_wpkh_tpub() {
    let desc = "wpkh(tpubD6NzVbkrYhZ4Xferm7Pz4VnjdcDPFyjVu5K4iZXQ4pVN8Cks4pHVowTBXBKRhX64pkRyJZJN5xAKj4UDNnLPb5p2sSKXhewoYx5GbTdUFWq/44'/0'/0'/0/*)";
    assert_eq!(get_checksum(desc).unwrap(), "pxvtu8dj");
}

#[test]
fn known_vector_raw() {
    assert_eq!(get_checksum("raw(deadbeef)").unwrap(), "89f8spxm");
}

#[test]
fn known_vector_addr() {
    assert_eq!(
        get_checksum("addr(mkmZxiEcEd8ZqjQWVZuC6so5dFMKEFpN2j)").unwrap(),
        "02wpgw69"
    );
}

#[test]
fn known_vector_short_strings() {
    assert_eq!(get_checksum("abc").unwrap(), "a9q0wgyq");
    assert_eq!(get_checksum("abcd").unwrap(), "hu5crsw6");
}

#[test]
fn empty_descriptor_yields_valid_checksum() {
    let cs = get_checksum("").unwrap();
    assert_eq!(cs.chars().count(), 8);
    assert!(cs.chars().all(|ch| CHECKSUM_CHARSET.contains(ch)));
    assert_eq!(cs, "7h0w2xvg");
}

#[test]
fn deterministic() {
    let desc = "pkh(L4rK1yDtCWekvXuE6oXD9jCYfFNV2cWRpVuPLBcCU2z8TrisoyY1)";
    let first = get_checksum(desc).unwrap();
    let second = get_checksum(desc).unwrap();
    assert_eq!(first, second);
}

#[test]
fn invalid_character_reported() {
    match get_checksum("pkh(é)") {
        Err(Error::InvalidDescriptorCharacter(ch)) => assert_eq!(ch, 'é'),
        other => panic!("expected an invalid-character error, got {:?}", other),
    }
}

#[test]
fn first_invalid_character_wins() {
    match get_checksum("ok\tthen\n") {
        Err(Error::InvalidDescriptorCharacter(ch)) => assert_eq!(ch, '\t'),
        other => panic!("expected an invalid-character error, got {:?}", other),
    }
}

#[test]
fn every_alphabet_character_is_accepted() {
    let cs = get_checksum(INPUT_CHARSET).unwrap();
    assert_eq!(cs.chars().count(), 8);
    assert!(cs.chars().all(|ch| CHECKSUM_CHARSET.contains(ch)));
}

#[test]
fn output_shape_fixed() {
    let descs = [
        "",
        "a",
        "ab",
        "abc",
        "raw(deadbeef)",
        "wpkh(tpubD6NzVbkrYhZ4Xferm7Pz4VnjdcDPFyjVu5K4iZXQ4pVN8Cks4pHVowTBXBKRhX64pkRyJZJN5xAKj4UDNnLPb5p2sSKXhewoYx5GbTdUFWq/44'/0'/0'/0/*)",
    ];
    for desc in descs {
        let cs = get_checksum(desc).unwrap();
        assert_eq!(cs.chars().count(), 8);
        assert!(cs.chars().all(|ch| CHECKSUM_CHARSET.contains(ch)));
    }
}

#[test]
fn single_substitutions_change_checksum() {
    let base = "addr(2N1Ffz3WaNzbeLFBb51xyFMHYSEUXcbiSoX)";
    let base_cs = get_checksum(base).unwrap();
    assert_eq!(base_cs, "8mqvgumr");
    let chars: Vec<char> = base.chars().collect();
    for i in 0..chars.len() {
        for sub in INPUT_CHARSET.chars() {
            if sub == chars[i] {
                continue;
            }
            let mut mutated = chars.clone();
            mutated[i] = sub;
            let mutated: String = mutated.into_iter().collect();
            let cs = get_checksum(&mutated).unwrap();
            assert_ne!(cs, base_cs, "mutation at {} to {:?} collided", i, sub);
        }
    }
}
