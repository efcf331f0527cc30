use ganbare::error::ErrorKind;
use ganbare::model::{Session, User};
use ganbare::session::{
    add_pending_email_confirm, fresh_sessid, ip_octets, is_superseded_session, refresh_session,
    sess_to_bin, sess_to_hex, start_session, superseded_before, IpAddress, new_session, confirm_secret,
};

fn session_with(id: Vec<u8>) -> Session {
    Session { sess_id: id, user_id: 7, started: 1_000, last_seen: 2_000, last_ip: vec![127, 0, 0, 1] }
}

#[test]
fn hex_of_session_id_is_uppercase() {
    let s = session_with(vec![0xde, 0xad, 0xbe, 0xef, 0x00, 0x0f]);
    assert_eq!(sess_to_hex(&s), "DEADBEEF000F");
}

#[test]
fn session_id_text_round_trip() {
    let id: Vec<u8> = (0u8..16).map(|i| i.wrapping_mul(37)).collect();
    let text = sess_to_hex(&session_with(id.clone()));
    assert_eq!(text.len(), 32);
    assert_eq!(sess_to_bin(&text), Ok(id));
}

#[test]
fn session_id_text_must_be_32_symbols() {
    assert_eq!(sess_to_bin("00112233445566778899AABBCCDDEEF"), Err(ErrorKind::BadSessId));
    assert_eq!(sess_to_bin("00112233445566778899AABBCCDDEEFF0"), Err(ErrorKind::BadSessId));
    assert_eq!(sess_to_bin(""), Err(ErrorKind::BadSessId));
}

#[test]
fn session_id_text_must_be_uppercase_hex() {
    assert_eq!(sess_to_bin("00112233445566778899aabbccddeeff"), Err(ErrorKind::BadSessId));
    assert_eq!(sess_to_bin("00112233445566778899AABBCCDDEEFG"), Err(ErrorKind::BadSessId));
    assert_eq!(
        sess_to_bin("00112233445566778899AABBCCDDEEFF"),
        Ok(vec![0x00, 0x11, 0x22, 0x33, 0x44, 0x55, 0x66, 0x77, 0x88, 0x99, 0xAA, 0xBB, 0xCC, 0xDD, 0xEE, 0xFF])
    );
}

#[test]
fn fresh_session_ids_are_sixteen_random_bytes() {
    let a = fresh_sessid().unwrap();
    let b = fresh_sessid().unwrap();
    assert_eq!(a.len(), 16);
    assert_ne!(a, b);
}

#[test]
fn ip_octets_in_network_order() {
    assert_eq!(ip_octets(&IpAddress::V4([192, 168, 0, 1])), vec![192, 168, 0, 1]);
    let mut v6 = [0u8; 16];
    v6[15] = 1;
    assert_eq!(ip_octets(&IpAddress::V6(v6)), v6.to_vec());
}

#[test]
fn login_starts_a_session_now() {
    let user = User { id: 3, email: "a@b".to_string() };
    let s = start_session(&user, 5_000, &IpAddress::V4([10, 0, 0, 2])).unwrap();
    assert_eq!(s.sess_id.len(), 16);
    assert_eq!(s.user_id, 3);
    assert_eq!(s.started, 5_000);
    assert_eq!(s.last_seen, 5_000);
    assert_eq!(s.last_ip, vec![10, 0, 0, 2]);
}

#[test]
fn refresh_keeps_user_and_start() {
    let old = session_with(vec![1; 16]);
    let s = refresh_session(&old, 9_000, &IpAddress::V4([1, 2, 3, 4])).unwrap();
    assert_eq!(s.user_id, old.user_id);
    assert_eq!(s.started, old.started);
    assert_eq!(s.last_seen, 9_000);
    assert_eq!(s.last_ip, vec![1, 2, 3, 4]);
    assert_ne!(s.sess_id, old.sess_id);
}

#[test]
fn old_sessions_survive_one_minute() {
    assert!(!is_superseded_session(40_000_000_000, 100_000_000_000));
    assert!(is_superseded_session(39_999_999_999, 100_000_000_000));
    assert!(!is_superseded_session(100_000_000_000, 100_000_000_000));
}

#[test]
fn superseded_sessions_are_older_than_a_minute() {
    assert_eq!(superseded_before(100_000_000_000), 40_000_000_000);
    assert_eq!(superseded_before(i64::MIN + 60_000_000_000), i64::MIN);
}

#[test]
fn email_confirm_secret_is_padded_base64url() {
    let s = add_pending_email_confirm().unwrap();
    assert_eq!(s.len(), 24);
    assert!(s.ends_with("=="));
    assert!(s[..22].chars().all(|c| c.is_ascii_alphanumeric() || c == '-' || c == '_'));
}

#[test]
fn session_keeps_its_identifier() {
    let id = [7u8; 16];
    let s = new_session(&id, 3, 10, 20, &IpAddress::V6([0; 16]));
    assert_eq!(s.sess_id, id.to_vec());
    assert_eq!((s.user_id, s.started, s.last_seen), (3, 10, 20));
    assert_eq!(s.last_ip, vec![0u8; 16]);
}

#[test]
fn confirm_secret_of_bytes() {
    assert_eq!(confirm_secret(&[0u8; 16]), "AAAAAAAAAAAAAAAAAAAAAA==");
    assert_eq!(confirm_secret(&[0xffu8; 16]), "_____________________w==");
}
