//! Per-connection request handling: the request line is parsed into a method and
//! a cleaned target, and one of three responses is rendered for it.
use vstd::prelude::*;
use crate::text::{append_decimal, decimal};

verus! {

/// The request methods the server tells apart.
#[derive(Clone, Copy, Debug, PartialEq, Eq, Structural)]
pub enum Method {
    GET,
    POST,
    UNSUPPORTED,
}

/// The method named by the first word of a request line.
pub open spec fn classify(word: Seq<char>) -> Method {
    if word == "GET"@ {
        Method::GET
    } else if word == "POST"@ {
        Method::POST
    } else {
        Method::UNSUPPORTED
    }
}

impl Method {
    /// The name under which the method is shown on a page.
    pub open spec fn label_spec(self) -> Seq<char> {
        match self {
            Method::GET => "GET"@,
            Method::POST => "POST"@,
            Method::UNSUPPORTED => "UNSUPPORTED"@,
        }
    }

    pub fn label(&self) -> (r: &'static str)
        ensures
            r@ == self.label_spec(),
    {
        match self {
            Method::GET => "GET",
            Method::POST => "POST",
            Method::UNSUPPORTED => "UNSUPPORTED",
        }
    }
}

/// Strips one leading `/` from a target longer than one character.
pub open spec fn clean_spec(t: Seq<char>) -> Seq<char> {
    if t.len() > 1 && t[0] == '/' {
        t.skip(1)
    } else {
        t
    }
}

/// The file a cleaned target names: `/` stands for the index file.
pub open spec fn filename_spec(t: Seq<char>) -> Seq<char> {
    if t == "/"@ {
        "index.html"@
    } else {
        t
    }
}

/// Removes the leading `/` of a target longer than one character; any other
/// target is returned as it is.
pub fn clean(target: &str) -> (r: &str)
    ensures
        r@ == clean_spec(target@),
{
    let n = target.unicode_len();
    if n > 1 && target.get_char(0) == '/' {
        target.substring_char(1, n)
    } else {
        target
    }
}

/// The file name to serve for a cleaned target.
pub fn resolve_filename(target: &str) -> (r: &str)
    ensures
        r@ == filename_spec(target@),
{
    proof {
        reveal_strlit("/");
        reveal_strlit("index.html");
    }
    if target.unicode_len() == 1 && target.get_char(0) == '/' {
        assert(target@ =~= "/"@);
        "index.html"
    } else {
        target
    }
}

/// A parsed request: its method and its cleaned target.
pub struct Request {
    pub method: Method,
    pub target: String,
}

impl View for Request {
    type V = (Method, Seq<char>);

    open spec fn view(&self) -> (Method, Seq<char>) {
        (self.method, self.target@)
    }
}

/// The request that the words of a request line give, if it has at least two.
pub open spec fn request_of(words: Seq<Seq<char>>) -> Option<(Method, Seq<char>)> {
    if words.len() < 2 {
        None
    } else {
        Some((classify(words[0]), clean_spec(words[1])))
    }
}

/// The view of a parse result.
pub open spec fn request_view(r: Option<Request>) -> Option<(Method, Seq<char>)> {
    match r {
        Some(q) => Some(q@),
        None => None,
    }
}

/// The views of a list of words.
pub open spec fn words_view(words: Seq<String>) -> Seq<Seq<char>> {
    words.map_values(|w: String| w@)
}

/// Builds a request from the words of a request line: the first names the
/// method, the second is the target.
pub fn request_from_words(words: &Vec<String>) -> (r: Option<Request>)
    ensures
        request_view(r) == request_of(words_view(words@)),
{
    if words.len() < 2 {
        return None;
    }
    let get = String::from_str("GET");
    let post = String::from_str("POST");
    proof {
        reveal_strlit("GET");
        reveal_strlit("POST");
    }
    let method = if words[0] == get {
        Method::GET
    } else if words[0] == post {
        Method::POST
    } else {
        Method::UNSUPPORTED
    };
    let target = String::from_str(clean(words[1].as_str()));
    Some(Request { method, target })
}

/// The words of a line as `str::split_whitespace` separates them.
pub uninterp spec fn words_of(line: Seq<char>) -> Seq<Seq<char>>;

/// Relies on `str::split_whitespace`: the maximal runs of non-whitespace
/// characters of `line`, in order; an empty line has none.
#[verifier::external_body]
fn split_words(line: &str) -> (r: Vec<String>)
    ensures
        words_view(r@) == words_of(line@),
        line@.len() == 0 ==> r@.len() == 0,
{
    line.split_whitespace().map(str::to_string).collect()
}

/// Parses a request line such as `GET /index.html HTTP/1.1`.
pub fn parse_request_line(line: &str) -> (r: Option<Request>)
    ensures
        request_view(r) == request_of(words_of(line@)),
{
    let words = split_words(line);
    request_from_words(&words)
}

/// Parses a request from its header lines, of which only the first is read.
pub fn parse_request(lines: &Vec<String>) -> (r: Option<Request>)
    ensures
        lines@.len() == 0 ==> r is None,
        lines@.len() > 0 ==> request_view(r) == request_of(words_of(lines@[0]@)),
{
    if lines.len() == 0 {
        None
    } else {
        parse_request_line(lines[0].as_str())
    }
}

/// A response: the header text (which holds the whole page of a canned
/// response) and the bytes of a served file.
pub struct Response {
    pub header: String,
    pub body: Option<Vec<u8>>,
}

/// The view of an optional byte buffer.
pub open spec fn bytes_view(b: Option<Vec<u8>>) -> Option<Seq<u8>> {
    match b {
        Some(v) => Some(v@),
        None => None,
    }
}

impl View for Response {
    type V = (Seq<char>, Option<Seq<u8>>);

    open spec fn view(&self) -> (Seq<char>, Option<Seq<u8>>) {
        (self.header@, bytes_view(self.body))
    }
}

impl Response {
    pub fn new(header: String) -> (r: Response)
        ensures
            r@ == (header@, None::<Seq<u8>>),
    {
        Response { header, body: None }
    }

    pub fn add_body(&mut self, body: Vec<u8>)
        ensures
            final(self)@ == (old(self)@.0, Some(body@)),
    {
        self.body = Some(body);
    }
}

/// The opening of every canned page.
pub open spec fn page_head() -> Seq<char> {
    "<!DOCTYPE html>\n<html lang=\"en\">\n<head>\n\t<meta charset=\"utf-8\">\n\t<title>Hello!</title>\n</head>\n<body>\n"@
}

/// The page sent with a 404 response.
pub open spec fn not_found_page() -> Seq<char> {
    page_head() + "\t<h1>Oops!</h1>\n\t<p>Sorry, I don't know what you're asking for.</p>\n</body>\n</html>\n"@
}

/// The line of a 501 page that names the method.
pub open spec fn method_line(label: Seq<char>) -> Seq<char> {
    "\t<h1>Method: "@ + label + "</h1>\n"@
}

/// The page sent with a 501 response for a method shown as `label`.
pub open spec fn not_implemented_page(label: Seq<char>) -> Seq<char> {
    page_head() + method_line(label)
        + "\t<p>Sorry, this functionality has not been implemented yet.</p>\n</body>\n</html>\n"@
}

/// The status line followed by the `Content-Length` line.
pub open spec fn content_length_line(status: Seq<char>, len: nat) -> Seq<char> {
    status + "\r\nContent-Length: "@ + decimal(len) + "\r\n"@
}

/// Status line and `Content-Length`, ended by the blank line.
pub open spec fn length_header(status: Seq<char>, len: nat) -> Seq<char> {
    content_length_line(status, len) + "\r\n"@
}

/// A canned response: the page follows the header block in the header text.
pub open spec fn canned_response(status: Seq<char>, page: Seq<char>) -> (Seq<char>, Option<Seq<u8>>) {
    (length_header(status, page.len()) + page, None)
}

pub open spec fn not_found_response() -> (Seq<char>, Option<Seq<u8>>) {
    canned_response("HTTP/1.1 404 NOT FOUND"@, not_found_page())
}

pub open spec fn not_implemented_response(m: Method) -> (Seq<char>, Option<Seq<u8>>) {
    canned_response("HTTP/1.1 501 NOT IMPLEMENTED"@, not_implemented_page(m.label_spec()))
}

/// The content type sent with a file: the guessed one, else `text/plain`.
pub open spec fn content_type(guessed: Option<Seq<char>>) -> Seq<char> {
    match guessed {
        Some(t) => t,
        None => "text/plain"@,
    }
}

/// The header of a 200 response.
pub open spec fn ok_header(len: nat, content_type: Seq<char>) -> Seq<char> {
    content_length_line("HTTP/1.1 200 OK"@, len) + "Content-Type: "@ + content_type + "\r\n"@
        + "\r\n"@
}

/// The 200 response that carries `contents`.
pub open spec fn file_response(contents: Seq<u8>, guessed: Option<Seq<char>>) -> (Seq<char>, Option<Seq<u8>>) {
    (ok_header(contents.len(), content_type(guessed)), Some(contents))
}

/// The MIME type text that `mime_guess` gives first for a file name, if any.
pub uninterp spec fn guessed_mime(filename: Seq<char>) -> Option<Seq<char>>;

/// The response to a GET of a cleaned target, given the contents of the file it
/// names (`None` where the file could not be read).
pub open spec fn get_response(target: Seq<char>, file: Option<Seq<u8>>) -> (Seq<char>, Option<Seq<u8>>) {
    match file {
        Some(c) => file_response(c, guessed_mime(filename_spec(target))),
        None => not_found_response(),
    }
}

/// The response to a request.
pub open spec fn response_of(method: Method, target: Seq<char>, file: Option<Seq<u8>>) -> (Seq<char>, Option<Seq<u8>>) {
    match method {
        Method::GET => get_response(target, file),
        _ => not_implemented_response(method),
    }
}

/// Relies on `mime_guess::from_path(..).first()`: the first MIME type known for
/// the extension of `filename`, rendered by `mime::Mime`'s `Display`.
#[verifier::external_body]
fn guess_mime(filename: &str) -> (r: Option<String>)
    ensures
        match r {
            Some(t) => guessed_mime(filename@) == Some(t@),
            None => guessed_mime(filename@) is None,
        },
{
    match mime_guess::from_path(filename).first() {
        Some(m) => Some(m.to_string()),
        None => None,
    }
}

/// Relies on `mime::TEXT_PLAIN`, which renders as `text/plain`.
#[verifier::external_body]
fn text_plain() -> (r: String)
    ensures
        r@ == "text/plain"@,
{
    mime::TEXT_PLAIN.to_string()
}

fn canned(status: &str, page: String) -> (r: Response)
    ensures
        r@ == canned_response(status@, page@),
{
    let mut header = String::from_str(status);
    header.append("\r\nContent-Length: ");
    append_decimal(&mut header, page.as_str().unicode_len());
    header.append("\r\n");
    header.append("\r\n");
    header.append(page.as_str());
    Response::new(header)
}

fn append_page_head(page: &mut String)
    ensures
        final(page)@ == old(page)@ + page_head(),
{
    page.append("<!DOCTYPE html>\n<html lang=\"en\">\n<head>\n\t<meta charset=\"utf-8\">\n\t<title>Hello!</title>\n</head>\n<body>\n");
}

/// The 404 response.
pub fn process_404() -> (r: Response)
    ensures
        r@ == not_found_response(),
{
    let mut page = String::new();
    append_page_head(&mut page);
    page.append("\t<h1>Oops!</h1>\n\t<p>Sorry, I don't know what you're asking for.</p>\n</body>\n</html>\n");
    canned("HTTP/1.1 404 NOT FOUND", page)
}

/// The 501 response for `method`.
pub fn process_unsupported(method: Method) -> (r: Response)
    ensures
        r@ == not_implemented_response(method),
{
    let mut page = String::new();
    append_page_head(&mut page);
    page.append("\t<h1>Method: ");
    page.append(method.label());
    page.append("</h1>\n");
    page.append("\t<p>Sorry, this functionality has not been implemented yet.</p>\n</body>\n</html>\n");
    canned("HTTP/1.1 501 NOT IMPLEMENTED", page)
}

/// The response to a POST.
pub fn process_post() -> (r: Response)
    ensures
        r@ == not_implemented_response(Method::POST),
{
    process_unsupported(Method::POST)
}

/// The 200 response carrying `contents`, given what the MIME guess for the
/// file name returned.
pub fn process_file(contents: Vec<u8>, guessed: Option<String>) -> (r: Response)
    ensures
        r@ == file_response(contents@, match guessed {
            Some(t) => Some(t@),
            None => None,
        }),
{
    let content_type = match guessed {
        Some(t) => t,
        None => text_plain(),
    };
    let mut header = String::from_str("HTTP/1.1 200 OK");
    header.append("\r\nContent-Length: ");
    append_decimal(&mut header, contents.len());
    header.append("\r\n");
    header.append("Content-Type: ");
    header.append(content_type.as_str());
    header.append("\r\n");
    header.append("\r\n");
    let mut r = Response::new(header);
    r.add_body(contents);
    r
}

/// The response to a GET of the cleaned target `request_file`, given the
/// contents of the file it names, or `None` where it could not be read.
pub fn process_get(request_file: &str, file: Option<Vec<u8>>) -> (r: Response)
    ensures
        r@ == get_response(request_file@, bytes_view(file)),
{
    match file {
        Some(contents) => {
            let filename = resolve_filename(request_file);
            let guessed = guess_mime(filename);
            process_file(contents, guessed)
        },
        None => process_404(),
    }
}

/// The response to `request`, given the contents of the file its target names
/// (read only for a GET; `None` where it could not be read).
pub fn respond(request: &Request, file: Option<Vec<u8>>) -> (r: Response)
    ensures
        r@ == response_of(request.method, request.target@, bytes_view(file)),
{
    match request.method {
        Method::GET => process_get(request.target.as_str(), file),
        Method::POST => process_post(),
        Method::UNSUPPORTED => process_unsupported(Method::UNSUPPORTED),
    }
}

/// Whether `s` begins with `prefix`.
pub open spec fn starts_with(s: Seq<char>, prefix: Seq<char>) -> bool {
    prefix.len() <= s.len() && s.subrange(0, prefix.len() as int) == prefix
}

/// Whether `part` occurs in `s` as a contiguous run.
pub open spec fn contains(s: Seq<char>, part: Seq<char>) -> bool {
    exists|i: int|
        0 <= i && i + part.len() <= s.len() && #[trigger] s.subrange(i, i + part.len()) == part
}

/// A GET whose file could be read answers `200 OK`, with a `Content-Length` of
/// the file's size and the file's bytes, unchanged, as the body.
pub proof fn lemma_get_serves_file(target: Seq<char>, contents: Seq<u8>)
    ensures
        starts_with(
            response_of(Method::GET, clean_spec(target), Some(contents)).0,
            content_length_line("HTTP/1.1 200 OK"@, contents.len()),
        ),
        response_of(Method::GET, clean_spec(target), Some(contents)).1 == Some(contents),
{
    let p = content_length_line("HTTP/1.1 200 OK"@, contents.len());
    let h = response_of(Method::GET, clean_spec(target), Some(contents)).0;
    assert(h.subrange(0, p.len() as int) =~= p);
}

/// `GET /` answers as `GET /index.html` does.
pub proof fn lemma_root_is_index(file: Option<Seq<u8>>)
    ensures
        clean_spec("/"@) == "/"@,
        filename_spec(clean_spec("/"@)) == "index.html"@,
        filename_spec(clean_spec("/index.html"@)) == "index.html"@,
        response_of(Method::GET, clean_spec("/"@), file) == response_of(
            Method::GET,
            clean_spec("/index.html"@),
            file,
        ),
{
    reveal_strlit("/");
    reveal_strlit("/index.html");
    reveal_strlit("index.html");
    assert(clean_spec("/index.html"@) =~= "index.html"@);
    assert("index.html"@ != "/"@) by {
        assert("index.html"@.len() != "/"@.len());
    }
}

/// A GET whose file could not be read answers `404 NOT FOUND` with the fixed
/// page, and a `Content-Length` of that page's length.
pub proof fn lemma_missing_file_not_found(target: Seq<char>)
    ensures
        response_of(Method::GET, target, None) == not_found_response(),
        starts_with(
            response_of(Method::GET, target, None).0,
            content_length_line("HTTP/1.1 404 NOT FOUND"@, not_found_page().len()),
        ),
        response_of(Method::GET, target, None).0 == length_header(
            "HTTP/1.1 404 NOT FOUND"@,
            not_found_page().len(),
        ) + not_found_page(),
        response_of(Method::GET, target, None).1 is None,
{
    let p = content_length_line("HTTP/1.1 404 NOT FOUND"@, not_found_page().len());
    let h = response_of(Method::GET, target, None).0;
    assert(h.subrange(0, p.len() as int) =~= p);
}

/// A 501 response names the method on its page.
proof fn lemma_not_implemented_names_method(m: Method)
    ensures
        starts_with(not_implemented_response(m).0, "HTTP/1.1 501 NOT IMPLEMENTED"@),
        contains(not_implemented_response(m).0, m.label_spec()),
{
    let label = m.label_spec();
    let status = "HTTP/1.1 501 NOT IMPLEMENTED"@;
    let page = not_implemented_page(label);
    let h = not_implemented_response(m).0;
    let i: int = (length_header(status, page.len()).len() + page_head().len() + "\t<h1>Method: "@.len()) as int;
    assert(h.subrange(0, status.len() as int) =~= status);
    assert(h.subrange(i, i + label.len() as int) =~= label);
}

/// A POST, to any target, answers `501 NOT IMPLEMENTED` with a page that names `POST`.
pub proof fn lemma_post_not_implemented(target: Seq<char>, file: Option<Seq<u8>>)
    ensures
        starts_with(response_of(Method::POST, target, file).0, "HTTP/1.1 501 NOT IMPLEMENTED"@),
        contains(response_of(Method::POST, target, file).0, "POST"@),
{
    lemma_not_implemented_names_method(Method::POST);
}

/// A request whose method is neither `GET` nor `POST` answers
/// `501 NOT IMPLEMENTED` with a page that names `UNSUPPORTED`.
pub proof fn lemma_other_method_not_implemented(
    word: Seq<char>,
    target: Seq<char>,
    file: Option<Seq<u8>>,
)
    requires
        word != "GET"@,
        word != "POST"@,
    ensures
        classify(word) == Method::UNSUPPORTED,
        starts_with(
            response_of(classify(word), target, file).0,
            "HTTP/1.1 501 NOT IMPLEMENTED"@,
        ),
        contains(response_of(classify(word), target, file).0, "UNSUPPORTED"@),
{
    lemma_not_implemented_names_method(Method::UNSUPPORTED);
}

/// Answering the same request twice, for an unchanged file, gives identical responses.
pub proof fn lemma_respond_idempotent(
    request: Request,
    file: Option<Seq<u8>>,
    first: Response,
    second: Response,
)
    requires
        first@ == response_of(request.method, request.target@, file),
        second@ == response_of(request.method, request.target@, file),
    ensures
        first@ == second@,
        first.header@ == second.header@,
        bytes_view(first.body) == bytes_view(second.body),
{
}

/// Cleaning strips exactly one leading `/` from a target longer than one
/// character, and leaves a bare `/`, which names the index file.
pub proof fn lemma_clean_path(target: Seq<char>)
    ensures
        target.len() > 1 && target[0] == '/' ==> clean_spec(target) == target.skip(1)
            && clean_spec(target).len() == target.len() - 1,
        !(target.len() > 1 && target[0] == '/') ==> clean_spec(target) == target,
        clean_spec("/"@) == "/"@,
        filename_spec(clean_spec("/"@)) == "index.html"@,
{
    reveal_strlit("/");
}

} // verus!
