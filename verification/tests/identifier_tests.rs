use hls_asset::identifier::{generate_video_id, id_from_indices};

const ALPHABET: &str = "ABCDEFGHJKLMNPQRSTUVWXYZabcdefghijkmnopqrstuvwxyz23456789";

#[test]
fn generated_id_has_length_11_and_alphabet_chars() {
    for _ in 0..100 {
        let id = generate_video_id();
        assert_eq!(id.chars().count(), 11);
        for c in id.chars() {
            assert!(ALPHABET.contains(c));
        }
    }
}

#[test]
fn generated_ids_avoid_ambiguous_glyphs() {
    for _ in 0..100 {
        let id = generate_video_id();
        for c in id.chars() {
            assert!(c != '0' && c != 'O' && c != '1' && c != 'l' && c != 'I');
        }
    }
}

#[test]
fn indices_map_deterministically_onto_the_alphabet() {
    assert_eq!(id_from_indices(&vec![0; 11]).as_str(), "AAAAAAAAAAA");
    assert_eq!(
        id_from_indices(&vec![0, 1, 2, 3, 4, 5, 6, 7, 8, 9, 10]).as_str(),
        "ABCDEFGHJKL"
    );
    assert_eq!(id_from_indices(&vec![56; 11]).as_str(), "99999999999");
    assert_eq!(id_from_indices(&vec![24; 11]).as_str(), "aaaaaaaaaaa");
}

#[test]
fn independent_ids_differ_with_high_probability() {
    // Uniqueness is not guaranteed, so no hard pairwise inequality is
    // asserted: only that collisions are statistically improbable.
    let ids: Vec<String> = (0..100).map(|_| generate_video_id()).collect();
    let mut distinct: Vec<&String> = Vec::new();
    for id in &ids {
        if !distinct.contains(&id) {
            distinct.push(id);
        }
    }
    assert!(distinct.len() >= 2);
    assert!(distinct.len() >= 95);
}
