use spotify_manager::auth::{
    code_and_state, last_value, parse_queries, redirect_url, request_target,
};
use spotify_manager::error::Error;
use spotify_manager::spotify::{CLIENT_ID, LOOPBACK_ADDRESS, REDIRECT_URL};

fn pairs(items: &[(&str, &str)]) -> Vec<(String, String)> {
    items.iter().map(|(k, v)| (k.to_string(), v.to_string())).collect()
}

#[test]
fn the_addresses_of_the_flow_are_fixed() {
    assert_eq!(CLIENT_ID, "b91f8140e4014e0eaf126d0bb043f59c");
    assert_eq!(LOOPBACK_ADDRESS, "127.0.0.1:8080");
    assert_eq!(REDIRECT_URL, "http://127.0.0.1:8080");
}

#[test]
fn code_and_state_are_read_from_the_query() {
    assert_eq!(
        parse_queries("http://127.0.0.1:8080/?code=abc&state=xyz"),
        Ok(("abc".to_string(), "xyz".to_string()))
    );
    assert_eq!(
        parse_queries("http://127.0.0.1:8080/?state=xyz&other=1&code=abc#fragment"),
        Ok(("abc".to_string(), "xyz".to_string()))
    );
}

#[test]
fn the_query_is_decoded() {
    assert_eq!(
        parse_queries("http://127.0.0.1:8080/?code=a%20b%26c&state=x+y"),
        Ok(("a b&c".to_string(), "x y".to_string()))
    );
    assert_eq!(
        parse_queries("http://127.0.0.1:8080/?code=&state"),
        Ok((String::new(), String::new()))
    );
}

#[test]
fn the_last_of_repeated_keys_counts() {
    assert_eq!(
        parse_queries("http://127.0.0.1:8080/?code=1&state=s&code=2"),
        Ok(("2".to_string(), "s".to_string()))
    );
}

#[test]
fn a_pasted_address_may_end_in_a_line_break() {
    assert_eq!(
        parse_queries("http://127.0.0.1:8080/?code=abc&state=xyz\n"),
        Ok(("abc".to_string(), "xyz".to_string()))
    );
}

#[test]
fn a_query_without_code_or_state_is_no_response() {
    assert_eq!(parse_queries("http://127.0.0.1:8080/?code=abc"), Err(Error::ParseAuthResponse));
    assert_eq!(parse_queries("http://127.0.0.1:8080/?state=xyz"), Err(Error::ParseAuthResponse));
    assert_eq!(parse_queries("http://127.0.0.1:8080/"), Err(Error::ParseAuthResponse));
    assert_eq!(
        parse_queries("http://127.0.0.1:8080/?Code=abc&State=xyz"),
        Err(Error::ParseAuthResponse)
    );
}

#[test]
fn what_is_no_address_is_no_response() {
    assert_eq!(parse_queries(""), Err(Error::ParseAuthResponse));
    assert_eq!(parse_queries("?code=abc&state=xyz"), Err(Error::ParseAuthResponse));
    assert_eq!(parse_queries("/?code=abc&state=xyz"), Err(Error::ParseAuthResponse));
    assert_eq!(parse_queries("http://:80:80/?code=a&state=b"), Err(Error::ParseAuthResponse));
}

#[test]
fn last_value_finds_the_last_pair_with_the_key() {
    let given = pairs(&[("a", "1"), ("b", "2"), ("a", "3"), ("", "4")]);
    assert_eq!(last_value(&given, &"a".to_string()), Some("3".to_string()));
    assert_eq!(last_value(&given, &"b".to_string()), Some("2".to_string()));
    assert_eq!(last_value(&given, &"".to_string()), Some("4".to_string()));
    assert_eq!(last_value(&given, &"c".to_string()), None);
    assert_eq!(last_value(&Vec::new(), &"a".to_string()), None);
}

#[test]
fn code_and_state_are_picked_from_pairs() {
    assert_eq!(
        code_and_state(&pairs(&[("state", "s"), ("code", "c")])),
        Ok(("c".to_string(), "s".to_string()))
    );
    assert_eq!(code_and_state(&pairs(&[("code", "c")])), Err(Error::ParseAuthResponse));
    assert_eq!(code_and_state(&pairs(&[("state", "s")])), Err(Error::ParseAuthResponse));
    assert_eq!(code_and_state(&Vec::new()), Err(Error::ParseAuthResponse));
}

#[test]
fn the_target_stands_between_the_first_two_spaces() {
    assert_eq!(request_target("GET /?code=a&state=b HTTP/1.1\r\n"), "/?code=a&state=b");
    assert_eq!(request_target("GET /path"), "/path");
    assert_eq!(request_target("GET  /path"), "");
    assert_eq!(request_target("GET "), "");
    assert_eq!(request_target("GET"), "");
    assert_eq!(request_target(""), "");
    assert_eq!(request_target(" x"), "x");
    assert_eq!(request_target("é ü ö"), "ü");
}

#[test]
fn the_target_is_the_second_piece_of_the_line() {
    for line in ["GET /a b c", "one", "", " ", "a  b", "POST /x?y=z HTTP/1.1", "  ", "a b"] {
        let expected: String = line.split(" ").skip(1).take(1).collect();
        assert_eq!(request_target(line), expected);
    }
}

#[test]
fn the_redirect_address_is_rebuilt_from_the_request() {
    let address = redirect_url("GET /?code=abc&state=xyz HTTP/1.1\r\n");
    assert_eq!(address, "http://127.0.0.1:8080/?code=abc&state=xyz");
    assert_eq!(parse_queries(&address), Ok(("abc".to_string(), "xyz".to_string())));
    assert_eq!(redirect_url("nonsense"), "http://127.0.0.1:8080");
}

#[test]
fn the_pairs_are_those_of_the_address() {
    for address in [
        "http://127.0.0.1:8080/?code=abc&state=xyz",
        "https://example.com/cb?state=1&code=%E2%9C%93&x=y",
        "http://127.0.0.1:8080/?code=a;b&state=c=d",
        "http://127.0.0.1:8080/?code&state=",
        "http://127.0.0.1:8080",
        "not an address",
    ] {
        let expected = url::Url::parse(address).ok().and_then(|parsed| {
            let find = |key: &str| {
                parsed
                    .query_pairs()
                    .filter(|(k, _)| k == key)
                    .last()
                    .map(|(_, v)| v.into_owned())
            };
            Some((find("code")?, find("state")?))
        });
        assert_eq!(parse_queries(address).ok(), expected);
    }
}
