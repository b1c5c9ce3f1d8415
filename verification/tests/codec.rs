use ccapi::encode_query;
use ccapi::parse_i32_radix;
use ccapi::parse_query;
use ccapi::parse_u32_radix;
use ccapi::split_str;
use ccapi::str_eq;
use ccapi::u32_to_dec;
use ccapi::u64_to_hex_prefixed;

fn pairs(raw: &[(&str, &str)]) -> Vec<(String, String)> {
    raw.iter().map(|(k, v)| (k.to_string(), v.to_string())).collect()
}

fn sorted(mut ps: Vec<(String, String)>) -> Vec<(String, String)> {
    ps.sort();
    ps
}

/// Encoding joins pairs with `&` and keys with values by `=`.
#[test]
fn encode_query_joins_pairs() {
    assert_eq!(encode_query(&pairs(&[])), "");
    assert_eq!(encode_query(&pairs(&[("type", "1")])), "type=1");
    assert_eq!(
        encode_query(&pairs(&[("id", "3"), ("msg", "hello")])),
        "id=3&msg=hello"
    );
}

/// Parsing splits on `&` and at the first `=`; a piece without `=` is a
/// key with an empty value.
#[test]
fn parse_query_splits_pieces() {
    assert_eq!(parse_query(""), pairs(&[]));
    assert_eq!(parse_query("a=1"), pairs(&[("a", "1")]));
    assert_eq!(parse_query("a=1&b=2"), pairs(&[("a", "1"), ("b", "2")]));
    assert_eq!(parse_query("flag"), pairs(&[("flag", "")]));
    assert_eq!(parse_query("a=x=y"), pairs(&[("a", "x=y")]));
}

/// Round trip: re-parsing an encoded parameter list recovers the same
/// key/value pairs, whatever the insertion order.
#[test]
fn query_round_trip_recovers_the_pairs() {
    let one = pairs(&[("id", "3"), ("msg", "hello"), ("empty", "")]);
    let other = pairs(&[("msg", "hello"), ("empty", ""), ("id", "3")]);
    assert_eq!(parse_query(&encode_query(&one)), one);
    assert_eq!(parse_query(&encode_query(&other)), other);
    assert_eq!(
        sorted(parse_query(&encode_query(&one))),
        sorted(parse_query(&encode_query(&other)))
    );
}

/// A value may itself contain `=` and still round-trip.
#[test]
fn query_round_trip_value_with_equals() {
    let ps = pairs(&[("msg", "a=b")]);
    assert_eq!(parse_query(&encode_query(&ps)), ps);
}

/// Unsigned parsing in both radixes the protocol uses.
#[test]
fn parse_u32_both_radixes() {
    assert_eq!(parse_u32_radix("0", 16), Some(0));
    assert_eq!(parse_u32_radix("1a", 16), Some(26));
    assert_eq!(parse_u32_radix("1A", 16), Some(26));
    assert_eq!(parse_u32_radix("80010002", 16), Some(0x80010002));
    assert_eq!(parse_u32_radix("ffffffff", 16), Some(u32::MAX));
    assert_eq!(parse_u32_radix("100000000", 16), None);
    assert_eq!(parse_u32_radix("4700", 10), Some(4700));
    assert_eq!(parse_u32_radix("+4700", 10), Some(4700));
    assert_eq!(parse_u32_radix("4294967295", 10), Some(u32::MAX));
    assert_eq!(parse_u32_radix("4294967296", 10), None);
    assert_eq!(parse_u32_radix("", 10), None);
    assert_eq!(parse_u32_radix("+", 10), None);
    assert_eq!(parse_u32_radix("NaN", 10), None);
    assert_eq!(parse_u32_radix("1a", 10), None);
    assert_eq!(parse_u32_radix("-1", 10), None);
    assert_eq!(parse_u32_radix("4 7", 10), None);
}

/// Signed parsing covers the asymmetric range of `i32`.
#[test]
fn parse_i32_signs_and_range() {
    assert_eq!(parse_i32_radix("3c", 16), Some(60));
    assert_eq!(parse_i32_radix("-a", 16), Some(-10));
    assert_eq!(parse_i32_radix("+a", 16), Some(10));
    assert_eq!(parse_i32_radix("7fffffff", 16), Some(i32::MAX));
    assert_eq!(parse_i32_radix("80000000", 16), None);
    assert_eq!(parse_i32_radix("-80000000", 16), Some(i32::MIN));
    assert_eq!(parse_i32_radix("-80000001", 16), None);
    assert_eq!(parse_i32_radix("1", 10), Some(1));
    assert_eq!(parse_i32_radix("-2147483648", 10), Some(i32::MIN));
    assert_eq!(parse_i32_radix("2147483648", 10), None);
    assert_eq!(parse_i32_radix("-", 10), None);
    assert_eq!(parse_i32_radix("-+1", 10), None);
}

/// Decimal rendering, as the standard formatter writes it.
#[test]
fn dec_rendering() {
    assert_eq!(u32_to_dec(0), "0");
    assert_eq!(u32_to_dec(7), "7");
    assert_eq!(u32_to_dec(4700), "4700");
    assert_eq!(u32_to_dec(u32::MAX), "4294967295");
}

/// Hexadecimal rendering with the `0x` prefix.
#[test]
fn hex_rendering() {
    assert_eq!(u64_to_hex_prefixed(0), "0x0");
    assert_eq!(u64_to_hex_prefixed(26), "0x1a");
    assert_eq!(u64_to_hex_prefixed(0xdeadbeef), "0xdeadbeef");
}

/// Splitting keeps empty pieces and the piece order.
#[test]
fn split_keeps_empty_pieces() {
    assert_eq!(split_str("", '\n'), vec!["".to_string()]);
    assert_eq!(split_str("0", '\n'), vec!["0".to_string()]);
    assert_eq!(
        split_str("0\n100\n", '\n'),
        vec!["0".to_string(), "100".to_string(), "".to_string()]
    );
}

/// Character-wise equality agrees with plain equality.
#[test]
fn str_eq_agrees_with_equality() {
    assert!(str_eq("getprocessname", "getprocessname"));
    assert!(!str_eq("soft", "hard"));
    assert!(!str_eq("soft", "softer"));
    assert!(str_eq("", ""));
}
