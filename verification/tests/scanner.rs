use tf2_trainer::scanner::{find_pattern, find_signature, parse_signature};

#[test]
fn parse_signature_reads_bytes_and_wildcards() {
    assert_eq!(
        parse_signature("55 8B EC ?? 5f ?"),
        Some(vec![Some(0x55), Some(0x8B), Some(0xEC), None, Some(0x5F), None])
    );
}

#[test]
fn parse_signature_rejects_malformed_patterns() {
    assert_eq!(parse_signature(""), None);
    assert_eq!(parse_signature("55 "), None);
    assert_eq!(parse_signature("55  8B"), None);
    assert_eq!(parse_signature("5"), None);
    assert_eq!(parse_signature("GG"), None);
    assert_eq!(parse_signature("558B"), None);
}

#[test]
fn find_pattern_finds_the_first_match() {
    let image = [0x00, 0x55, 0x8B, 0xEC, 0x55, 0x8B, 0xEC];
    assert_eq!(find_pattern(&image, &vec![Some(0x55), Some(0x8B)]), Some(1));
    assert_eq!(find_pattern(&image, &vec![None, Some(0xEC)]), Some(2));
    assert_eq!(find_pattern(&image, &vec![Some(0xEC), Some(0x00)]), None);
    assert_eq!(find_pattern(&image[..1], &vec![Some(0x00), None]), None);
}

#[test]
fn find_signature_in_an_image() {
    let mut image = vec![0xCC; 64];
    let sig = [0x55, 0x8B, 0xEC, 0x83, 0xEC, 0x08, 0x56, 0x57, 0x8B, 0x7D, 0x08, 0x8B, 0xF1, 0x83, 0xFF, 0x20];
    image[40..56].copy_from_slice(&sig);
    assert_eq!(
        find_signature(&image, "55 8B EC 83 EC 08 56 57 8B 7D 08 8B F1 83 FF 20"),
        Some(40)
    );
    assert_eq!(find_signature(&image, "55 8B EC 83 EC 09"), None);
    assert_eq!(find_signature(&image, "zz"), None);
}
