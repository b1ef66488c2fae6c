use qmk_xap::token::Token;
use qmk_xap::XapError;

#[test]
fn token_from_raw_ranges() {
    assert_eq!(Token::from_raw(0x0100), Ok(Token::WithResponse(0x0100)));
    assert_eq!(Token::from_raw(0xFFFD), Ok(Token::WithResponse(0xFFFD)));
    assert_eq!(Token::from_raw(0xFFFE), Ok(Token::WithoutResponse));
    assert_eq!(Token::from_raw(0xFFFF), Ok(Token::Broadcast));
    assert_eq!(Token::from_raw(0x00FF), Err(XapError::InvalidToken(0x00FF)));
}

#[test]
fn regular_token_is_in_range() {
    for _ in 0..100 {
        match Token::regular_token() {
            Token::WithResponse(v) => assert!((0x0100..=0xFFFD).contains(&v)),
            other => panic!("unexpected token {other:?}"),
        }
    }
}

#[test]
fn fixed_tokens() {
    assert_eq!(Token::broadcast_token(), Token::Broadcast);
    assert_eq!(Token::broadcast_token().raw(), 0xFFFF);
    assert_eq!(Token::without_response_token().raw(), 0xFFFE);
}
