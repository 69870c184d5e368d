use democracy::entities::invite_poll::InvitePollId;

fn sample_bytes() -> Vec<u8> {
    vec![0, 1, 2, 3, 4, 5, 6, 7, 8, 9, 10, 11, 12, 13, 14, 15]
}

#[test]
fn poll_id_encodes_to_known_base64() {
    let id = InvitePollId::new(sample_bytes()).unwrap();
    assert_eq!(id.to_string(), "AAECAwQFBgcICQoLDA0ODw");
}

#[test]
fn poll_id_round_trips_through_text() {
    let id = InvitePollId::new(sample_bytes()).unwrap();
    let text = id.to_string();
    let back = InvitePollId::from_str(&text).unwrap();
    assert!(back == id);
    assert_eq!(back.to_string(), text);
}

#[test]
fn poll_id_round_trips_for_various_bytes() {
    let samples: Vec<Vec<u8>> = vec![
        vec![0; 16],
        vec![255; 16],
        vec![250, 17, 93, 0, 4, 200, 31, 7, 128, 64, 32, 16, 8, 4, 2, 1],
    ];
    for bytes in samples {
        let id = InvitePollId::new(bytes).unwrap();
        let text = id.to_string();
        let back = InvitePollId::from_str(&text).unwrap();
        assert!(back == id);
    }
}

#[test]
fn poll_id_rejects_wrong_length() {
    assert!(InvitePollId::new(vec![1, 2, 3]).is_none());
    assert!(InvitePollId::new(vec![0; 17]).is_none());
}

#[test]
fn from_str_rejects_malformed_text() {
    // not base64 at all
    assert!(InvitePollId::from_str("!!!!").is_err());
    // a length the encoding cannot produce
    assert!(InvitePollId::from_str("A").is_err());
    // valid base64, but not 16 bytes
    assert!(InvitePollId::from_str("AAAA").is_err());
    // padding is not part of the unpadded form
    assert!(InvitePollId::from_str("AAECAwQFBgcICQoLDA0ODw==").is_err());
    // empty text decodes to zero bytes, not 16
    assert!(InvitePollId::from_str("").is_err());
}

#[test]
fn from_str_error_is_client_error() {
    let err = InvitePollId::from_str("not base64").unwrap_err();
    assert!(err.is_client_error());
}
