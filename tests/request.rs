use game_verifier::request::{decode_player_address, ProofRequest, RequestError};

fn request(address: &str) -> ProofRequest {
    ProofRequest {
        player_address: address.to_string(),
        start_timestamp: 1000,
        end_timestamp: 1120,
        blocks_destroyed: 100,
        decisions_made: vec![4, 5],
        final_soul_tokens: 101,
        total_clicks: 500,
        version: 1,
    }
}

const ADDRESS: &str = "00112233445566778899aabbccddeeff0A1B2C3D";
const BYTES: [u8; 20] = [
    0x00, 0x11, 0x22, 0x33, 0x44, 0x55, 0x66, 0x77, 0x88, 0x99, 0xaa, 0xbb, 0xcc, 0xdd, 0xee, 0xff,
    0x0a, 0x1b, 0x2c, 0x3d,
];

#[test]
fn address_with_and_without_prefix() {
    assert_eq!(decode_player_address(ADDRESS), Ok(BYTES));
    assert_eq!(decode_player_address(&format!("0x{}", ADDRESS)), Ok(BYTES));
    assert_eq!(
        decode_player_address(&format!("0x0x{}", ADDRESS)),
        Err(RequestError::InvalidAddress)
    );
}

#[test]
fn address_wrong_length_rejected() {
    assert_eq!(decode_player_address(""), Err(RequestError::InvalidAddress));
    assert_eq!(decode_player_address("0x"), Err(RequestError::InvalidAddress));
    assert_eq!(decode_player_address(&ADDRESS[..38]), Err(RequestError::InvalidAddress));
    assert_eq!(decode_player_address(&format!("0x{}", &ADDRESS[..38])), Err(RequestError::InvalidAddress));
    assert_eq!(decode_player_address(&format!("{}00", ADDRESS)), Err(RequestError::InvalidAddress));
    assert_eq!(decode_player_address(&ADDRESS[..39]), Err(RequestError::InvalidAddress));
}

#[test]
fn address_non_hex_rejected() {
    let bad = format!("{}zz", &ADDRESS[..38]);
    assert_eq!(decode_player_address(&bad), Err(RequestError::InvalidAddress));
    assert_eq!(decode_player_address(&format!("0X{}", ADDRESS)), Err(RequestError::InvalidAddress));
    let wide = format!("{}é", &ADDRESS[..38]);
    assert_eq!(decode_player_address(&wide), Err(RequestError::InvalidAddress));
}

#[test]
fn request_becomes_session() {
    let s = request(&format!("0x{}", ADDRESS)).to_game_session().unwrap();
    assert_eq!(s.player_address, BYTES);
    assert_eq!(s.start_timestamp, 1000);
    assert_eq!(s.end_timestamp, 1120);
    assert_eq!(s.blocks_destroyed, 100);
    assert_eq!(s.decisions_made, vec![4, 5]);
    assert_eq!(s.final_soul_tokens, 101);
    assert_eq!(s.total_clicks, 500);
    assert_eq!(s.version, 1);
}

#[test]
fn request_errors() {
    assert_eq!(request("0x1234").to_game_session(), Err(RequestError::InvalidAddress));
    let mut r = request(ADDRESS);
    r.end_timestamp = 999;
    assert_eq!(r.to_game_session(), Err(RequestError::InvalidTimestamps));
    r.player_address = "nothex".to_string();
    assert_eq!(r.to_game_session(), Err(RequestError::InvalidAddress));
}

#[test]
fn request_error_messages() {
    assert_eq!(RequestError::InvalidAddress.message(), "address must be 20 bytes of hex text");
    assert_eq!(RequestError::InvalidTimestamps.message(), "session ends before it starts");
}
