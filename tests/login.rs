use hmac::Mac;
use zero2prod::login::{error_query_string, HmacSecret, QueryParams, TagError};

fn tag_for(secret: &str, query: &str) -> String {
    let mut mac = hmac::Hmac::<sha2::Sha256>::new_from_slice(secret.as_bytes()).unwrap();
    mac.update(query.as_bytes());
    hex::encode(mac.finalize().into_bytes())
}

#[test]
fn a_correctly_signed_error_is_returned() {
    let secret = HmacSecret("long-secret-key".to_string());
    let tag = tag_for("long-secret-key", "error=Authentication%20failed");
    let params = QueryParams { error: "Authentication failed".to_string(), tag };
    assert_eq!(params.verify(&secret), Ok("Authentication failed".to_string()));
}

#[test]
fn an_uppercase_tag_is_accepted() {
    let secret = HmacSecret("k".to_string());
    let tag = tag_for("k", "error=x").to_uppercase();
    let params = QueryParams { error: "x".to_string(), tag };
    assert_eq!(params.verify(&secret), Ok("x".to_string()));
}

#[test]
fn a_tag_over_another_message_is_refused() {
    let secret = HmacSecret("long-secret-key".to_string());
    let tag = tag_for("long-secret-key", "error=Authentication failed");
    let params = QueryParams { error: "Authentication failed".to_string(), tag };
    assert_eq!(params.verify(&secret), Err(TagError::BadSignature));
}

#[test]
fn a_tag_under_another_key_is_refused() {
    let secret = HmacSecret("long-secret-key".to_string());
    let tag = tag_for("other-key", "error=x");
    let params = QueryParams { error: "x".to_string(), tag };
    assert_eq!(params.verify(&secret), Err(TagError::BadSignature));
}

#[test]
fn a_malformed_tag_is_refused() {
    let secret = HmacSecret("k".to_string());
    for tag in ["zz", "abc", "not hex"] {
        let params = QueryParams { error: "x".to_string(), tag: tag.to_string() };
        assert_eq!(params.verify(&secret), Err(TagError::MalformedTag));
    }
}

#[test]
fn the_signed_query_starts_with_the_key() {
    assert_eq!(error_query_string("a%20b"), "error=a%20b");
}
