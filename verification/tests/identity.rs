use gossip::config::Config;
use gossip::db::{Db, StoreError};
use gossip::features::users::extractors::{
    authenticate_at, identify, identify_at, is_space_char, profile_of, token_of_header, trim,
    without_bearer, Rejection,
};
use gossip::features::users::models::User;
use gossip::features::users::repositories::UserRepo;
use gossip::jwt::{encode, encode_at, TOKEN_LIFETIME};

const SECRET: &[u8] = b"SECRET-REDACTED";

fn config() -> Config {
    Config {
        db_url: String::new(),
        jwt_secret: String::from("SECRET-REDACTED"),
        mail_username: String::new(),
        mail_password: String::new(),
        mail_host: String::new(),
        mail_port: 25,
        mail_email: String::new(),
        mail_author: String::new(),
        mail_tls: false,
    }
}

fn by_std(value: &str) -> String {
    value.trim().trim_start_matches("Bearer").trim().to_owned()
}

#[test]
fn token_is_read_as_trim_strip_trim() {
    let values = [
        "Bearer abc",
        "  Bearer   abc  ",
        "BearerBearer abc",
        "Bearer Bearer abc",
        "abc",
        "bearer abc",
        "Bearer",
        "Beare",
        "Bearerx",
        "",
        "   ",
        "\t\n Bearer\u{a0}abc\u{3000}",
        "Bearer a b c",
        "BearerBearerBearer",
        " BearerBearer  Bearer ",
        "Bearer \u{1f511}ключ ",
        "\u{2003}Bearer \u{e9}t\u{e9}\u{2028}",
        "xBearer abc",
        "Bear er abc",
    ];
    for value in values {
        assert_eq!(token_of_header(value), by_std(value), "header {:?}", value);
    }
}

#[test]
fn token_examples() {
    assert_eq!(token_of_header("Bearer abc"), "abc");
    assert_eq!(token_of_header("  Bearer   abc  "), "abc");
    assert_eq!(token_of_header("BearerBearer abc"), "abc");
    assert_eq!(token_of_header("Bearer Bearer abc"), "Bearer abc");
    assert_eq!(token_of_header("abc"), "abc");
    assert_eq!(token_of_header("bearer abc"), "bearer abc");
    assert_eq!(token_of_header("Bearer"), "");
    assert_eq!(token_of_header(""), "");
}

#[test]
fn trim_is_std_trim() {
    for value in ["", " ", "a", " a", "a ", " a b ", "\u{85}a\u{1680}", "\u{200b}a", "\r\n"] {
        assert_eq!(trim(value), value.trim(), "text {:?}", value);
    }
}

#[test]
fn without_bearer_is_std_trim_start_matches() {
    for value in ["", "Bearer", "BearerBearer", "Bearer x", " Bearer", "Bea", "BearerBeare"] {
        assert_eq!(without_bearer(value), value.trim_start_matches("Bearer"), "text {:?}", value);
    }
}

#[test]
fn white_space_is_unicode_white_space() {
    for n in 0u32..0x3100 {
        if let Some(c) = char::from_u32(n) {
            assert_eq!(is_space_char(c), c.is_whitespace(), "U+{:04X}", n);
        }
    }
    assert!(!is_space_char('\u{feff}'));
    assert!(!is_space_char('\u{10ffff}'));
}

#[test]
fn identify_reads_the_id_of_a_good_token() {
    let token = encode_at(31, SECRET, 100).unwrap();
    let header = format!("Bearer {}", token);
    assert_eq!(identify_at(Some(&header), SECRET, 100), Ok(31));
    assert_eq!(identify_at(Some(&token), SECRET, 100), Ok(31));
    let padded = format!("  Bearer   {}  ", token);
    assert_eq!(identify_at(Some(&padded), SECRET, 100 + TOKEN_LIFETIME), Ok(31));
}

#[test]
fn identify_turns_down_missing_bad_and_expired_tokens() {
    let token = encode_at(31, SECRET, 100).unwrap();
    let header = format!("Bearer {}", token);
    assert_eq!(identify_at(None, SECRET, 100), Err(Rejection::MissingToken));
    assert_eq!(identify_at(Some("Bearer"), SECRET, 100), Err(Rejection::InvalidToken));
    assert_eq!(identify_at(Some(""), SECRET, 100), Err(Rejection::InvalidToken));
    assert_eq!(identify_at(Some("Bearer a.b.c"), SECRET, 100), Err(Rejection::InvalidToken));
    assert_eq!(identify_at(Some(&header), b"other", 100), Err(Rejection::InvalidToken));
    assert_eq!(
        identify_at(Some(&header), SECRET, 101 + TOKEN_LIFETIME),
        Err(Rejection::InvalidToken)
    );
    let lower = format!("bearer {}", token);
    assert_eq!(identify_at(Some(&lower), SECRET, 100), Err(Rejection::InvalidToken));
}

#[test]
fn identify_by_the_clock() {
    let token = encode(5, SECRET).unwrap();
    let header = format!("Bearer {}", token);
    assert_eq!(identify(Some(&header), SECRET), Ok(5));
    assert_eq!(identify(None, SECRET), Err(Rejection::MissingToken));
    let old = format!("Bearer {}", encode_at(5, SECRET, 0).unwrap());
    assert_eq!(identify(Some(&old), SECRET), Err(Rejection::InvalidToken));
}

#[test]
fn profile_of_decides_each_answer() {
    let user = User {
        id: 1,
        username: String::from("n"),
        email: String::from("a@x.com"),
        password_hash: String::from("h"),
        is_verified: true,
    };
    assert_eq!(profile_of(Ok(Some(user))).unwrap().email, "a@x.com");
    assert_eq!(profile_of(Ok(None)).unwrap_err(), Rejection::InvalidToken);
    assert_eq!(profile_of(Err(StoreError::Backend)).unwrap_err(), Rejection::InternalError);
}

#[test]
fn authenticate_resolves_confirmed_accounts_only() {
    let config = config();
    let mut db = Db::new();
    db.upsert_unverified("a@x.com", "h", "n", "111111").unwrap();
    db.upsert_unverified("b@x.com", "h", "m", "222222").unwrap();
    db.confirm("b@x.com").unwrap();
    let repo = UserRepo { db };

    let for_a = format!("Bearer {}", encode_at(1, SECRET, 10).unwrap());
    let for_b = format!("Bearer {}", encode_at(2, SECRET, 10).unwrap());
    let for_nobody = format!("Bearer {}", encode_at(3, SECRET, 10).unwrap());

    let user = authenticate_at(Some(&for_b), &config, &repo, 10).unwrap();
    assert_eq!((user.id, user.email.as_str(), user.username.as_str()), (2, "b@x.com", "m"));
    assert_eq!(
        authenticate_at(Some(&for_a), &config, &repo, 10).unwrap_err(),
        Rejection::InvalidToken
    );
    assert_eq!(
        authenticate_at(Some(&for_nobody), &config, &repo, 10).unwrap_err(),
        Rejection::InvalidToken
    );
    assert_eq!(
        authenticate_at(None, &config, &repo, 10).unwrap_err(),
        Rejection::MissingToken
    );
    assert_eq!(
        authenticate_at(Some(&for_b), &config, &repo, 11 + TOKEN_LIFETIME).unwrap_err(),
        Rejection::InvalidToken
    );
}

#[test]
fn rejections_have_status_and_text() {
    assert_eq!(Rejection::MissingToken.status_code(), 401);
    assert_eq!(Rejection::InvalidToken.status_code(), 401);
    assert_eq!(Rejection::InternalError.status_code(), 500);
    assert_eq!(Rejection::MissingToken.message(), "No authorization token provided");
    assert_eq!(Rejection::InvalidToken.message(), "Invalid token");
    assert_eq!(Rejection::InternalError.message(), "Internal server error");
}
