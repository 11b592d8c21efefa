use meshcore_cli::edits::{card_bytes, card_part, change_flags, parse_path};
use meshcore_cli::error::CliError;
use meshcore_cli::replies::parse_neighbours;

#[test]
fn flag_changes() {
    assert_eq!(change_flags(0, "trusted").ok(), Some(0x01));
    assert_eq!(change_flags(0x1f, "-hidden, -STAR").ok(), Some(0x0d));
    assert_eq!(change_flags(0, "+tel_l,tel_all,starred").ok(), Some(0x1c));
    match change_flags(0, "trusted,bogus") {
        Err(CliError::InvalidArgument(m)) => assert_eq!(m, "Unknown flag: bogus"),
        other => panic!("unexpected {:?}", other),
    }
    assert!(change_flags(0, "").is_err());
}

#[test]
fn relay_paths() {
    assert_eq!(parse_path("a1b2c3d4e5f6, 010203040506", Some(6)).ok().unwrap(),
        vec![0xa1, 0xb2, 0xc3, 0xd4, 0xe5, 0xf6, 1, 2, 3, 4, 5, 6]);
    assert_eq!(parse_path("", Some(6)).ok().unwrap(), Vec::<u8>::new());
    assert_eq!(parse_path("ab,,CD", None).ok().unwrap(), vec![0xab, 0xcd]);
    assert!(matches!(parse_path("ab", Some(6)), Err(CliError::InvalidArgument(_))));
    match parse_path("zz", None) {
        Err(CliError::InvalidArgument(m)) => assert_eq!(m, "Invalid hex in path: zz"),
        other => panic!("unexpected {:?}", other),
    }
}

#[test]
fn neighbour_lists() {
    assert!(parse_neighbours(&[1, 0, 1]).is_none());
    let mut d = vec![3, 0, 2, 0];
    d.extend_from_slice(&[1, 2, 3, 4, 5, 6, 0x10, 0x0e, 0, 0, 0xf8]);
    d.extend_from_slice(&[9, 9, 9, 9, 9, 9, 0xff, 0xff, 0xff, 0xff, 8]);
    d.extend_from_slice(&[7, 7]);
    let r = parse_neighbours(&d).unwrap();
    assert_eq!(r.neighbours_count, 3);
    assert_eq!(r.results_count, 2);
    assert_eq!(r.entries.len(), 2);
    assert_eq!(r.entries[0].prefix, vec![1, 2, 3, 4, 5, 6]);
    assert_eq!(r.entries[0].secs_ago, 3600);
    assert_eq!(r.entries[0].snr_quarters, -8);
    assert_eq!(r.entries[1].secs_ago, -1);
    assert_eq!(r.entries[1].snr_quarters, 8);
    // More entries announced than sent, and a negative count.
    let r = parse_neighbours(&[0, 0, 5, 0, 1, 2, 3, 4, 5, 6, 0, 0, 0, 0, 0]).unwrap();
    assert_eq!(r.entries.len(), 1);
    let r = parse_neighbours(&[0, 0, 0xff, 0xff]).unwrap();
    assert_eq!(r.results_count, -1);
    assert!(r.entries.is_empty());
}

#[test]
fn contact_cards() {
    assert_eq!(card_part("mc://contact#aGk=").ok(), Some("aGk="));
    assert_eq!(card_part("a#b#aGk=").ok(), Some("aGk="));
    assert_eq!(card_part("aGk=").ok(), Some("aGk="));
    assert!(matches!(card_part("mc://nothing"), Err(CliError::InvalidArgument(_))));
    assert_eq!(card_bytes("mc://x#aGk=").ok(), Some(b"hi".to_vec()));
    assert!(matches!(card_bytes("@@@"), Err(CliError::InvalidArgument(_))));
}
