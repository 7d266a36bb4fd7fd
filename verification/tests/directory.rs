use mycqu_gateway::directory::{directory_url, DIRECTORY_TIMEOUT_SECONDS};
use mycqu_gateway::pool::RefreshError;

#[test]
fn url_carries_both_credentials() {
    let url = directory_url(&Some("id42".to_string()), &Some("sig99".to_string())).unwrap();
    assert_eq!(
        url,
        "https://dps.kdlapi.com/api/getdps/?secret_id=id42&signature=sig99&num=1&format=json&sep=1&f_et=1&area=%E9%87%8D%E5%BA%86"
    );
    assert_eq!(DIRECTORY_TIMEOUT_SECONDS, 10);
}

#[test]
fn identifier_is_put_in_before_the_signature() {
    let url = directory_url(&Some("{signature}".to_string()), &Some("s".to_string())).unwrap();
    assert!(url.contains("secret_id=s&signature=s&"));
    let url = directory_url(&Some("a".to_string()), &Some("{secret_id}".to_string())).unwrap();
    assert!(url.contains("secret_id=a&signature={secret_id}&"));
}

#[test]
fn missing_credentials_are_named_in_their_order() {
    let none: Option<String> = None;
    match directory_url(&none, &none) {
        Err(RefreshError::MissingSetting { name }) => assert_eq!(name, "PROXY_SECRET_ID"),
        _ => panic!("a URL was made without credentials"),
    }
    match directory_url(&Some("id".to_string()), &none) {
        Err(RefreshError::MissingSetting { name }) => assert_eq!(name, "PROXY_SIGNATURE"),
        _ => panic!("a URL was made without a signature"),
    }
    match directory_url(&none, &Some("sig".to_string())) {
        Err(error) => assert_eq!(error.message(), "PROXY_SECRET_ID not set"),
        _ => panic!("a URL was made without an identifier"),
    }
}
