use btc_sampler::{
    quote_from, read_quote, read_response, DataFields, FetchError, Field, Quote, Sample, PRICE_URL,
};

fn text(s: &str) -> String {
    s.to_string()
}

#[test]
fn price_url_is_the_spot_endpoint() {
    assert_eq!(PRICE_URL, "https://api.coinbase.com/v2/prices/spot?currency=USD");
}

#[test]
fn full_response_gives_the_quote() {
    let body = r#"{"data":{"amount":"67123.455","base":"BTC","currency":"USD"}}"#;
    let quote = read_quote(body).expect("the response holds a price");
    assert_eq!(
        quote,
        Quote {
            amount: text("67123.455"),
            amount_text: text("\"67123.455\""),
            base_text: Some(text("\"BTC\"")),
            currency_text: Some(text("\"USD\"")),
        }
    );
    assert_eq!(quote.amount.parse::<f64>(), Ok(67123.455));
}

#[test]
fn quote_is_found_whatever_the_layout() {
    let body = "\n {\n  \"other\": [1, 2],\n  \"data\": {\n    \"currency\": \"USD\",\n    \"amount\": \"1.5\",\n    \"extra\": null,\n    \"base\": \"BTC\"\n  }\n }\n";
    let quote = read_quote(body).expect("the response holds a price");
    assert_eq!(quote.amount, "1.5");
    assert_eq!(quote.amount_text, "\"1.5\"");
    assert_eq!(quote.base_text.as_deref(), Some("\"BTC\""));
    assert_eq!(quote.currency_text.as_deref(), Some("\"USD\""));
}

#[test]
fn amount_alone_is_enough() {
    let quote = read_quote(r#"{"data":{"amount":"10"}}"#).expect("the response holds a price");
    assert_eq!(quote.amount, "10");
    assert_eq!(quote.base_text, None);
    assert_eq!(quote.currency_text, None);
    assert_eq!(quote.cache_line(), "Received data: Amount=\"10\"");
}

#[test]
fn members_are_echoed_as_json_text() {
    let body = r#"{"data":{"amount":"1","base":{"a":[1,true,null]},"currency":7}}"#;
    let quote = read_quote(body).expect("the response holds a price");
    assert_eq!(quote.base_text.as_deref(), Some(r#"{"a":[1,true,null]}"#));
    assert_eq!(quote.currency_text.as_deref(), Some("7"));
}

#[test]
fn string_member_is_unescaped_for_the_price_and_escaped_for_the_echo() {
    let quote = read_quote(r#"{"data":{"amount":"10\t"}}"#).expect("amount is a string");
    assert_eq!(quote.amount, "10\t");
    assert_eq!(quote.amount_text, "\"10\\t\"");
}

#[test]
fn body_that_is_no_json_is_a_decode_failure() {
    for body in ["", "not json", "{", r#"{"data":}"#, r#"{"data":{"amount":"1"}} x"#, "<html></html>"] {
        assert_eq!(read_quote(body), Err(FetchError::Decode), "body {:?}", body);
    }
}

#[test]
fn document_without_data_is_missing_data() {
    for body in ["{}", "[]", "null", "5", r#""data""#, r#"{"Data":{"amount":"1"}}"#, r#"[{"data":{"amount":"1"}}]"#] {
        assert_eq!(read_quote(body), Err(FetchError::MissingData), "body {:?}", body);
    }
}

#[test]
fn data_without_amount_is_a_missing_field() {
    for body in [
        r#"{"data":{}}"#,
        r#"{"data":{"base":"BTC","currency":"USD"}}"#,
        r#"{"data":5}"#,
        r#"{"data":null}"#,
        r#"{"data":["amount"]}"#,
        r#"{"data":"amount"}"#,
        r#"{"data":{"Amount":"1"}}"#,
        r#"{"data":{"inner":{"amount":"1"}}}"#,
    ] {
        assert_eq!(read_quote(body), Err(FetchError::MissingField), "body {:?}", body);
    }
}

#[test]
fn amount_that_is_no_string_is_a_format_failure() {
    for body in [
        r#"{"data":{"amount":12.5}}"#,
        r#"{"data":{"amount":null}}"#,
        r#"{"data":{"amount":["1"]}}"#,
        r#"{"data":{"amount":{"value":"1"}}}"#,
        r#"{"data":{"amount":true,"base":"BTC","currency":"USD"}}"#,
    ] {
        assert_eq!(read_quote(body), Err(FetchError::Format), "body {:?}", body);
    }
}

#[test]
fn request_that_did_not_complete_is_a_transport_failure() {
    assert_eq!(read_response(None), Err(FetchError::Transport));
}

#[test]
fn completed_request_is_read_as_its_body() {
    let body = r#"{"data":{"amount":"3","base":"BTC","currency":"USD"}}"#;
    assert_eq!(read_response(Some(body)), read_quote(body));
    assert!(read_response(Some(body)).is_ok());
    assert_eq!(read_response(Some("oops")), Err(FetchError::Decode));
}

#[test]
fn decision_on_fields_follows_what_was_found() {
    let amount = Field { text: text("\"2\""), string: Some(text("2")) };
    let number = Field { text: text("2"), string: None };
    let base = Field { text: text("\"BTC\""), string: Some(text("BTC")) };
    let other_base = Field { text: text("\"ETH\""), string: Some(text("ETH")) };
    assert_eq!(quote_from(None), Err(FetchError::MissingData));
    assert_eq!(
        quote_from(Some(DataFields { amount: None, base: Some(other_base), currency: None })),
        Err(FetchError::MissingField)
    );
    assert_eq!(
        quote_from(Some(DataFields { amount: Some(number), base: None, currency: None })),
        Err(FetchError::Format)
    );
    assert_eq!(
        quote_from(Some(DataFields {
            amount: Some(amount),
            base: Some(base),
            currency: None,
        })),
        Ok(Quote {
            amount: text("2"),
            amount_text: text("\"2\""),
            base_text: Some(text("\"BTC\"")),
            currency_text: None,
        })
    );
}

#[test]
fn cache_line_names_amount_base_and_currency() {
    let body = r#"{"data":{"amount":"67123.455","base":"BTC","currency":"USD"}}"#;
    let quote = read_quote(body).expect("the response holds a price");
    assert_eq!(
        quote.cache_line(),
        "Received data: Amount=\"67123.455\", Base=\"BTC\", Currency=\"USD\""
    );
}

#[test]
fn cache_line_leaves_out_what_the_response_lacks() {
    let quote = Quote {
        amount: text("1"),
        amount_text: text("\"1\""),
        base_text: None,
        currency_text: Some(text("\"USD\"")),
    };
    assert_eq!(quote.cache_line(), "Received data: Amount=\"1\", Currency=\"USD\"");
    let quote = Quote { base_text: Some(text("\"BTC\"")), currency_text: None, ..quote };
    assert_eq!(quote.cache_line(), "Received data: Amount=\"1\", Base=\"BTC\"");
}

#[test]
fn distributed_line_names_the_amount_alone() {
    let body = r#"{"data":{"amount":"67123.455","base":"BTC","currency":"USD"}}"#;
    let quote = read_quote(body).expect("the response holds a price");
    assert_eq!(quote.distributed_line(), "Received data: Amount=\"67123.455\"");
}

#[test]
fn price_text_that_is_a_number_becomes_the_sample() {
    let quote = read_quote(r#"{"data":{"amount":"500.0"}}"#).expect("the response holds a price");
    let parsed = quote.amount.parse::<f64>().ok().map(|p| Sample::from_bits(p.to_bits()));
    assert_eq!(quote.priced(parsed), Ok(Sample::from_bits(500.0f64.to_bits())));
}

#[test]
fn price_text_that_is_no_number_is_a_format_failure() {
    let quote = read_quote(r#"{"data":{"amount":"five"}}"#).expect("amount is a string");
    let parsed = quote.amount.parse::<f64>().ok().map(|p| Sample::from_bits(p.to_bits()));
    assert_eq!(parsed, None);
    assert_eq!(quote.priced(parsed), Err(FetchError::Format));
}

#[test]
fn every_fetch_error_has_its_message() {
    let cases = [
        (FetchError::Transport, "Failed to send HTTP request"),
        (FetchError::Decode, "Error parsing JSON"),
        (FetchError::MissingData, "No 'data' field in JSON response"),
        (FetchError::MissingField, "Incomplete data in JSON response"),
        (FetchError::Format, "Invalid amount in JSON response"),
    ];
    for (error, message) in cases {
        assert_eq!(error.message(), message);
    }
}
