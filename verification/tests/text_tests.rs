use workpool::advanced_traits::OutlinePrint;
use workpool::advanced_traits::Point;
use workpool::advanced_traits::Wrapper;
use workpool::requests::build_response;
use workpool::requests::file_for;
use workpool::requests::route_request;
use workpool::requests::status_line;
use workpool::requests::RequestKind;
use workpool::text::i32_to_decimal;
use workpool::text::join_strings;
use workpool::text::repeat_str;
use workpool::text::str_eq;
use workpool::text::u64_to_decimal;

#[test]
fn decimal_rendering_is_exact() {
    assert_eq!(u64_to_decimal(0), "0");
    assert_eq!(u64_to_decimal(7), "7");
    assert_eq!(u64_to_decimal(42), "42");
    assert_eq!(u64_to_decimal(1234567890), "1234567890");
    assert_eq!(i32_to_decimal(-345), "-345");
    assert_eq!(i32_to_decimal(0), "0");
    assert_eq!(i32_to_decimal(i32::MIN), "-2147483648");
}

#[test]
fn repetition_and_joining() {
    assert_eq!(repeat_str("ab", 3), "ababab");
    assert_eq!(repeat_str("x", 0), "");
    let items = vec![
        String::from("Yes"),
        String::from("Maybe"),
        String::from("No"),
    ];
    assert_eq!(join_strings(&items, ", "), "Yes, Maybe, No");
    let one = vec![String::from("only")];
    assert_eq!(join_strings(&one, ", "), "only");
    let none: Vec<String> = Vec::new();
    assert_eq!(join_strings(&none, ", "), "");
}

#[test]
fn string_equality_by_characters() {
    assert!(str_eq("hello", "hello"));
    assert!(!str_eq("hello", "hellp"));
    assert!(!str_eq("hello", "hell"));
    assert!(str_eq("", ""));
}

#[test]
fn point_text_and_outline() {
    let p = Point { x: 1, y: 3 };
    assert_eq!(p.to_text(), "(1, 3)");
    let lines = p.outline_print();
    assert_eq!(
        lines,
        vec![
            String::from("**********"),
            String::from("*        *"),
            String::from("* (1, 3) *"),
            String::from("*        *"),
            String::from("**********"),
        ]
    );
}

#[test]
fn wrapper_text_is_bracketed() {
    let w = Wrapper(vec![String::from("hello"), String::from("world")]);
    assert_eq!(w.to_text(), "[hello, world]");
}

#[test]
fn requests_route_to_the_three_pages() {
    assert_eq!(route_request("GET / HTTP/1.1"), RequestKind::Root);
    assert_eq!(route_request("GET /sleep HTTP/1.1"), RequestKind::Sleep);
    assert_eq!(route_request("GET /missing HTTP/1.1"), RequestKind::NotFound);
    assert_eq!(status_line(RequestKind::Root), "HTTP/1.1 200 OK");
    assert_eq!(status_line(RequestKind::Sleep), "HTTP/1.1 200 OK");
    assert_eq!(status_line(RequestKind::NotFound), "HTTP/1.1 404 NOT FOUND");
    assert_eq!(file_for(RequestKind::Root), "hello.html");
    assert_eq!(file_for(RequestKind::NotFound), "404.html");
}

#[test]
fn response_is_framed_with_content_length() {
    let r = build_response("HTTP/1.1 200 OK", "hello");
    assert_eq!(r, "HTTP/1.1 200 OK\r\nContent-Length: 5\r\n\r\nhello");
    let r = build_response("HTTP/1.1 404 NOT FOUND", "");
    assert_eq!(r, "HTTP/1.1 404 NOT FOUND\r\nContent-Length: 0\r\n\r\n");
}
