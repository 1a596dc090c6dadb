use local_stt::listen::{
    params_from_pairs, parse_listen_params, parse_number, ListenParamsError, NumberError,
};

#[test]
fn parse_single_language() {
    let params = parse_listen_params("language=en").unwrap();
    assert_eq!(params.languages.len(), 1);
    assert_eq!(params.languages[0], "en");
}

#[test]
fn parse_multiple_languages() {
    let params = parse_listen_params("language=en&language=ko").unwrap();
    assert_eq!(params.languages.len(), 2);
    assert_eq!(params.languages[0], "en");
    assert_eq!(params.languages[1], "ko");
}

#[test]
fn parse_no_languages() {
    let params = parse_listen_params("").unwrap();
    assert!(params.languages.is_empty());
}

#[test]
fn parse_with_keywords() {
    let params = parse_listen_params("language=en&keywords=hello&keywords=world").unwrap();
    assert_eq!(params.languages.len(), 1);
    assert_eq!(params.keywords, vec!["hello", "world"]);
}

#[test]
fn defaults_channels_and_sample_rate_when_omitted() {
    let params = parse_listen_params("").unwrap();
    assert_eq!(params.channels, 1);
    assert_eq!(params.sample_rate, 16000);
}

#[test]
fn query_is_decoded() {
    let params =
        parse_listen_params("keywords=two+words&keywords=a%26b&channels=2&sample_rate=%2B44100&x=y")
            .unwrap();
    assert_eq!(params.keywords, vec!["two words", "a&b"]);
    assert_eq!(params.channels, 2);
    assert_eq!(params.sample_rate, 44100);
}

#[test]
fn pairs_are_gathered_by_key_in_order() {
    let pairs = vec![
        ("keywords".to_string(), "b".to_string()),
        ("language".to_string(), "en".to_string()),
        ("keywords".to_string(), "a".to_string()),
    ];
    let params = params_from_pairs(&pairs).unwrap();
    assert_eq!(params.keywords, vec!["b", "a"]);
    assert_eq!(params.languages, vec!["en"]);
}

#[test]
fn bad_numbers_are_refused() {
    let number = |query: &str| match parse_listen_params(query) {
        Err(ListenParamsError::Number(error)) => error,
        _ => panic!("expected a number error"),
    };
    assert_eq!(number("channels="), NumberError::Empty);
    assert_eq!(number("channels=x"), NumberError::InvalidDigit);
    assert_eq!(number("channels=-1"), NumberError::InvalidDigit);
    assert_eq!(number("channels=256"), NumberError::TooLarge);
    assert_eq!(number("sample_rate=4294967296"), NumberError::TooLarge);
    assert_eq!(number("sample_rate=1 0"), NumberError::InvalidDigit);
}

#[test]
fn repeated_number_is_refused() {
    let error = parse_listen_params("channels=1&channels=1").unwrap_err();
    assert_eq!(error, ListenParamsError::Repeated);
    assert_eq!(error.message(), "unsupported value");
}

#[test]
fn first_bad_key_decides_the_error() {
    let error = parse_listen_params("sample_rate=x&channels=1&channels=2").unwrap_err();
    assert_eq!(error, ListenParamsError::Number(NumberError::InvalidDigit));
    let error = parse_listen_params("channels=1&sample_rate=x&channels=2").unwrap_err();
    assert_eq!(error, ListenParamsError::Repeated);
}

#[test]
fn every_query_without_numbers_is_read() {
    for query in ["%", "%zz=%ff", "&&=&=x", "a", "+=+", "\u{7f}\u{20ac}=\0", "language=%f0%28"] {
        let params = parse_listen_params(query).unwrap();
        assert_eq!(params.channels, 1);
        assert_eq!(params.sample_rate, 16000);
        assert!(params.keywords.is_empty());
    }
    let params = parse_listen_params("language=%f0%28&keywords=a%20b+c").unwrap();
    assert_eq!(params.languages, vec!["\u{fffd}(".to_string()]);
    assert_eq!(params.keywords, vec!["a b c".to_string()]);
}

#[test]
fn numbers_read_as_std_reads_them() {
    for text in [
        "", "+", "-", "0", "00", "7", "+7", "++7", "-7", "255", "256", "+255", "2555", "25x", "999x",
        "x999", " 1", "1 ", "0000000255", "99999999999999999999", "\u{0663}", "1_0",
    ] {
        match (parse_number(text, 255), text.parse::<u8>()) {
            (Ok(ours), Ok(std)) => assert_eq!(ours, std as u32),
            (Err(ours), Err(std)) => {
                assert_eq!(ListenParamsError::Number(ours).message(), std.to_string());
            }
            _ => panic!("{:?} is read differently", text),
        }
        match (parse_number(text, u32::MAX), text.parse::<u32>()) {
            (Ok(ours), Ok(std)) => assert_eq!(ours, std),
            (Err(ours), Err(std)) => {
                assert_eq!(ListenParamsError::Number(ours).message(), std.to_string());
            }
            _ => panic!("{:?} is read differently", text),
        }
    }
}
