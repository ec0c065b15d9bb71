use alphascout_agent::urls::{pair_url, search_url, urlencode};

#[test]
fn unreserved_text_unchanged() {
    assert_eq!(urlencode("base"), "base");
    assert_eq!(urlencode("AZaz09-_.~"), "AZaz09-_.~");
    assert_eq!(urlencode(""), "");
}

#[test]
fn reserved_bytes_percent_encoded() {
    assert_eq!(urlencode("a b&c/\u{e9}"), "a%20b%26c%2F%C3%A9");
    assert_eq!(urlencode("?#%"), "%3F%23%25");
}

#[test]
fn endpoints() {
    assert_eq!(
        search_url("base chain"),
        "https://api.dexscreener.com/latest/dex/search?q=base%20chain"
    );
    assert_eq!(
        pair_url("base", "0xAbC/1"),
        "https://api.dexscreener.com/latest/dex/pairs/base/0xAbC%2F1"
    );
}

#[test]
fn encoding_of_concatenation() {
    let a = "a b/";
    let b = "\u{e9}~c";
    assert_eq!(urlencode(&(a.to_owned() + b)), urlencode(a) + &urlencode(b));
}
