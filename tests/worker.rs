use rws::worker::{
    clean, parse_request, parse_request_line, process_404, process_file, process_get,
    process_post, process_unsupported, resolve_filename, respond, Method, Request, Response,
};

const NOT_FOUND_PAGE: &str = "<!DOCTYPE html>\n<html lang=\"en\">\n<head>\n\t<meta charset=\"utf-8\">\n\t<title>Hello!</title>\n</head>\n<body>\n\t<h1>Oops!</h1>\n\t<p>Sorry, I don't know what you're asking for.</p>\n</body>\n</html>\n";

fn request(method: Method, target: &str) -> Request {
    Request { method, target: target.to_string() }
}

fn wire(r: &Response) -> Vec<u8> {
    let mut out = r.header.as_bytes().to_vec();
    if let Some(b) = &r.body {
        out.extend_from_slice(b);
    }
    out
}

#[test]
fn get_hello_txt_serves_file() {
    let q = parse_request_line("GET /hello.txt HTTP/1.1").unwrap();
    let r = respond(&q, Some(b"hi".to_vec()));
    assert_eq!(
        r.header,
        "HTTP/1.1 200 OK\r\nContent-Length: 2\r\nContent-Type: text/plain\r\n\r\n"
    );
    assert_eq!(r.body, Some(b"hi".to_vec()));
}

#[test]
fn get_missing_html_not_found() {
    let q = parse_request_line("GET /missing.html HTTP/1.1").unwrap();
    let r = respond(&q, None);
    let expected = format!(
        "HTTP/1.1 404 NOT FOUND\r\nContent-Length: {}\r\n\r\n{}",
        NOT_FOUND_PAGE.len(),
        NOT_FOUND_PAGE
    );
    assert_eq!(r.header, expected);
    assert_eq!(r.body, None);
    assert_eq!(NOT_FOUND_PAGE.len(), 186);
}

#[test]
fn post_anything_not_implemented() {
    let q = parse_request_line("POST /anything HTTP/1.1").unwrap();
    assert_eq!(q.method, Method::POST);
    let r = respond(&q, None);
    assert!(r.header.starts_with("HTTP/1.1 501 NOT IMPLEMENTED\r\nContent-Length: "));
    assert!(r.header.contains("\t<h1>Method: POST</h1>\n"));
    assert_eq!(r.body, None);
}

#[test]
fn other_method_not_implemented() {
    let q = parse_request_line("DELETE /x HTTP/1.1").unwrap();
    assert_eq!(q.method, Method::UNSUPPORTED);
    let r = respond(&q, Some(b"ignored".to_vec()));
    assert!(r.header.starts_with("HTTP/1.1 501 NOT IMPLEMENTED\r\n"));
    assert!(r.header.contains("Method: UNSUPPORTED"));
    assert_eq!(r.body, None);
}

#[test]
fn not_implemented_length_matches_page() {
    let r = process_post();
    let (head, page) = r.header.split_once("\r\n\r\n").unwrap();
    let len: usize = head.rsplit("Content-Length: ").next().unwrap().parse().unwrap();
    assert_eq!(len, page.len());
    assert_eq!(process_unsupported(Method::POST).header, r.header);
}

#[test]
fn method_is_case_sensitive() {
    let q = parse_request_line("get / HTTP/1.1").unwrap();
    assert_eq!(q.method, Method::UNSUPPORTED);
}

#[test]
fn not_found_length_matches_page() {
    let r = process_404();
    let (head, page) = r.header.split_once("\r\n\r\n").unwrap();
    assert_eq!(head, "HTTP/1.1 404 NOT FOUND\r\nContent-Length: 186");
    assert_eq!(page, NOT_FOUND_PAGE);
}

#[test]
fn root_answers_as_index() {
    let page = b"<p>home</p>".to_vec();
    let a = respond(&request(Method::GET, "/"), Some(page.clone()));
    let b = respond(&request(Method::GET, "index.html"), Some(page));
    assert_eq!(a.header, b.header);
    assert_eq!(a.body, b.body);
    assert!(a.header.contains("Content-Type: text/html\r\n"));
    assert_eq!(resolve_filename("/"), "index.html");
}

#[test]
fn same_get_twice_is_identical() {
    let q = parse_request_line("GET /data.bin HTTP/1.1").unwrap();
    let contents = vec![0u8, 1, 2, 255];
    let a = respond(&q, Some(contents.clone()));
    let b = respond(&q, Some(contents));
    assert_eq!(wire(&a), wire(&b));
}

#[test]
fn clean_strips_one_slash() {
    assert_eq!(clean("/foo"), "foo");
    assert_eq!(clean("//foo"), "/foo");
    assert_eq!(clean("/"), "/");
    assert_eq!(clean("foo"), "foo");
    assert_eq!(clean(""), "");
}

#[test]
fn parse_cleans_target() {
    let q = parse_request_line("GET /a/b.css HTTP/1.1").unwrap();
    assert_eq!(q.method, Method::GET);
    assert_eq!(q.target, "a/b.css");
    let q = parse_request_line("GET / HTTP/1.1").unwrap();
    assert_eq!(q.target, "/");
    let q = parse_request_line("  GET\t/x  ").unwrap();
    assert_eq!(q.target, "x");
}

#[test]
fn parse_needs_two_words() {
    assert!(parse_request_line("GET").is_none());
    assert!(parse_request_line("").is_none());
    assert!(parse_request_line("   ").is_none());
    assert!(parse_request(&Vec::new()).is_none());
}

#[test]
fn parse_reads_first_line_only() {
    let lines = vec!["GET /a.txt HTTP/1.1".to_string(), "Host: example".to_string()];
    let q = parse_request(&lines).unwrap();
    assert_eq!(q.method, Method::GET);
    assert_eq!(q.target, "a.txt");
}

#[test]
fn content_type_from_extension() {
    let r = process_get("style.css", Some(b"p{}".to_vec()));
    assert!(r.header.contains("Content-Type: text/css\r\n"));
    let r = process_get("noextension", Some(Vec::new()));
    assert_eq!(
        r.header,
        "HTTP/1.1 200 OK\r\nContent-Length: 0\r\nContent-Type: text/plain\r\n\r\n"
    );
    assert_eq!(r.body, Some(Vec::new()));
}

#[test]
fn file_response_uses_given_type() {
    let r = process_file(vec![1, 2, 3], Some("image/png".to_string()));
    assert_eq!(
        r.header,
        "HTTP/1.1 200 OK\r\nContent-Length: 3\r\nContent-Type: image/png\r\n\r\n"
    );
    let r = process_file(vec![1], None);
    assert!(r.header.contains("Content-Type: text/plain\r\n"));
}

#[test]
fn response_new_and_add_body() {
    let mut r = Response::new("H".to_string());
    assert_eq!(r.body, None);
    r.add_body(vec![7]);
    assert_eq!(r.header, "H");
    assert_eq!(r.body, Some(vec![7]));
}

#[test]
fn method_labels() {
    assert_eq!(Method::GET.label(), "GET");
    assert_eq!(Method::POST.label(), "POST");
    assert_eq!(Method::UNSUPPORTED.label(), "UNSUPPORTED");
}
