//! The request file: requests separated by lines that begin with `###`.
//!
//! A request is a request line, header lines, an empty line and a body. The request
//! line holds a method, a target and `HTTP/` with a version; the method and the
//! version may be left out. A header line holds a name, a colon and a value. The body
//! runs to the next separator line or to the end of the text.

use vstd::prelude::*;
use vstd::string::*;
use crate::text::{
    decimal, find_char, find_line_end, line_end, part, part_is, scan_blanks, scan_char,
    scan_spaces, scan_word, skip_blanks, skip_spaces, spec_decimal, word_end,
};

verus! {

/// The methods that a request file can name.
#[derive(Clone, Copy, Debug, PartialEq, Eq, Structural)]
pub enum HttpMethod {
    Get,
    Post,
    Put,
    Delete,
}

impl Default for HttpMethod {
    fn default() -> (method: HttpMethod)
        ensures
            method == HttpMethod::Get,
    {
        HttpMethod::Get
    }
}

impl HttpMethod {
    /// The method as it is written in a request line.
    pub open spec fn spec_name(self) -> Seq<char> {
        match self {
            HttpMethod::Get => "GET"@,
            HttpMethod::Post => "POST"@,
            HttpMethod::Put => "PUT"@,
            HttpMethod::Delete => "DELETE"@,
        }
    }

    /// The method as it is written in a request line.
    pub fn as_str(&self) -> (name: &'static str)
        ensures
            name@ == self.spec_name(),
    {
        match self {
            HttpMethod::Get => "GET",
            HttpMethod::Post => "POST",
            HttpMethod::Put => "PUT",
            HttpMethod::Delete => "DELETE",
        }
    }
}

/// The headers of a request, in the order in which they were written. A name may
/// occur more than once.
#[derive(Clone, Debug)]
pub struct HttpHeaders {
    pub pairs: Vec<(String, String)>,
}

impl View for HttpHeaders {
    type V = Seq<(Seq<char>, Seq<char>)>;

    open spec fn view(&self) -> Seq<(Seq<char>, Seq<char>)> {
        self.pairs@.map_values(|h: (String, String)| (h.0@, h.1@))
    }
}

/// The value of the last header called `name`, if there is one.
pub open spec fn spec_get(headers: Seq<(Seq<char>, Seq<char>)>, name: Seq<char>) -> Option<
    Seq<char>,
>
    decreases headers.len(),
{
    if headers.len() == 0 {
        None
    } else if headers.last().0 == name {
        Some(headers.last().1)
    } else {
        spec_get(headers.drop_last(), name)
    }
}

/// The headers between brackets, as `name: value`, with a comma and a space
/// between two of them.
pub open spec fn spec_headers_text(headers: Seq<(Seq<char>, Seq<char>)>) -> Seq<char> {
    seq!['['] + spec_headers_list(headers) + seq![']']
}

/// The headers as `name: value`, with a comma and a space between two of them.
pub open spec fn spec_headers_list(headers: Seq<(Seq<char>, Seq<char>)>) -> Seq<char>
    decreases headers.len(),
{
    if headers.len() == 0 {
        Seq::empty()
    } else if headers.len() == 1 {
        headers[0].0 + seq![':', ' '] + headers[0].1
    } else {
        spec_headers_list(headers.drop_last()) + seq![',', ' '] + headers.last().0 + seq![
            ':',
            ' ',
        ] + headers.last().1
    }
}

impl HttpHeaders {
    /// No headers.
    pub fn new() -> (headers: HttpHeaders)
        ensures
            headers@ == Seq::<(Seq<char>, Seq<char>)>::empty(),
    {
        let headers = HttpHeaders { pairs: Vec::new() };
        assert(headers@ =~= Seq::<(Seq<char>, Seq<char>)>::empty());
        headers
    }

    /// The number of headers.
    pub fn len(&self) -> (n: usize)
        ensures
            n == self@.len(),
    {
        self.pairs.len()
    }

    /// Appends a header behind those that are held.
    pub fn push(&mut self, name: String, value: String)
        ensures
            final(self)@ == old(self)@.push((name@, value@)),
    {
        self.pairs.push((name, value));
        assert(self@ =~= old(self)@.push((name@, value@)));
    }

    /// The value of the last header called `name`, if there is one.
    pub fn get(&self, name: &str) -> (value: Option<&String>)
        ensures
            value is Some == spec_get(self@, name@) is Some,
            value is Some ==> value->Some_0@ == spec_get(self@, name@)->Some_0,
    {
        let mut i: usize = self.pairs.len();
        assert(self@.subrange(0, i as int) =~= self@);
        while i > 0
            invariant
                i <= self.pairs.len(),
                spec_get(self@, name@) == spec_get(self@.subrange(0, i as int), name@),
            decreases i,
        {
            let ghost upto = self@.subrange(0, i as int);
            assert(upto.drop_last() =~= self@.subrange(0, i - 1));
            assert(upto.last() == self@[i - 1]);
            i = i - 1;
            let key = self.pairs[i].0.as_str();
            assert(key@.subrange(0, key@.len() as int) =~= key@);
            if part_is(key, 0, key.unicode_len(), name) {
                return Some(&self.pairs[i].1);
            }
        }
        assert(self@.subrange(0, 0) =~= Seq::<(Seq<char>, Seq<char>)>::empty());
        None
    }

    /// The headers between brackets.
    pub fn to_text(&self) -> (text: String)
        ensures
            text@ == spec_headers_text(self@),
    {
        proof {
            reveal_strlit("[");
            reveal_strlit("]");
            reveal_strlit(", ");
            reveal_strlit(": ");
        }
        let mut text = String::from_str("[");
        let mut i: usize = 0;
        assert(self@.subrange(0, 0) =~= Seq::<(Seq<char>, Seq<char>)>::empty());
        while i < self.pairs.len()
            invariant
                i <= self.pairs.len(),
                text@ == seq!['['] + spec_headers_list(self@.subrange(0, i as int)),
            decreases self.pairs.len() - i,
        {
            proof {
                reveal_strlit(", ");
                reveal_strlit(": ");
                let upto = self@.subrange(0, i + 1);
                assert(upto.drop_last() =~= self@.subrange(0, i as int));
                assert(upto.last() == self@[i as int]);
                assert(upto[0] == self@[0]);
            }
            if i > 0 {
                text.append(", ");
            }
            text.append(self.pairs[i].0.as_str());
            text.append(": ");
            text.append(self.pairs[i].1.as_str());
            i = i + 1;
            assert(text@ =~= seq!['['] + spec_headers_list(self@.subrange(0, i as int)));
        }
        assert(self@.subrange(0, i as int) =~= self@);
        text.append("]");
        text
    }
}

/// One request of the file.
#[derive(Clone, Debug)]
pub struct HttpRequest {
    pub method: HttpMethod,
    pub url: String,
    pub version: String,
    pub headers: HttpHeaders,
    pub body: String,
}

/// A request as plain values.
pub struct RequestModel {
    pub method: HttpMethod,
    pub url: Seq<char>,
    pub version: Seq<char>,
    pub headers: Seq<(Seq<char>, Seq<char>)>,
    pub body: Seq<char>,
}

impl View for HttpRequest {
    type V = RequestModel;

    open spec fn view(&self) -> RequestModel {
        RequestModel {
            method: self.method,
            url: self.url@,
            version: self.version@,
            headers: self.headers@,
            body: self.body@,
        }
    }
}

impl RequestModel {
    /// Method, target, `HTTP/` with the version, and the headers between brackets,
    /// with one space between two parts.
    pub open spec fn text(self) -> Seq<char> {
        self.method.spec_name() + seq![' '] + self.url + seq![' ', 'H', 'T', 'T', 'P', '/']
            + self.version + seq![' '] + spec_headers_text(self.headers)
    }
}

impl HttpRequest {
    /// The headers of the request.
    pub fn headers(&self) -> (headers: &HttpHeaders)
        ensures
            headers@ == self@.headers,
    {
        &self.headers
    }

    /// A copy of the request.
    pub fn duplicate(&self) -> (copy: HttpRequest)
        ensures
            copy@ == self@,
    {
        let mut headers = HttpHeaders::new();
        let mut i: usize = 0;
        while i < self.headers.pairs.len()
            invariant
                i <= self.headers.pairs.len(),
                headers@ == self.headers@.subrange(0, i as int),
            decreases self.headers.pairs.len() - i,
        {
            headers.push(self.headers.pairs[i].0.clone(), self.headers.pairs[i].1.clone());
            i = i + 1;
            assert(headers@ =~= self.headers@.subrange(0, i as int));
        }
        assert(self.headers@.subrange(0, i as int) =~= self.headers@);
        HttpRequest {
            method: self.method,
            url: self.url.clone(),
            version: self.version.clone(),
            headers,
            body: self.body.clone(),
        }
    }

    /// The request on one line.
    pub fn to_text(&self) -> (text: String)
        ensures
            text@ == self@.text(),
    {
        proof {
            reveal_strlit(" ");
            reveal_strlit(" HTTP/");
        }
        let mut text = String::from_str(self.method.as_str());
        text.append(" ");
        text.append(self.url.as_str());
        text.append(" HTTP/");
        text.append(self.version.as_str());
        text.append(" ");
        let headers = self.headers.to_text();
        text.append(headers.as_str());
        assert(text@ =~= self@.text());
        text
    }
}

/// The requests of a file, in the order in which they were written.
#[derive(Debug)]
pub struct HttpFile {
    pub requests: Vec<HttpRequest>,
}

impl View for HttpFile {
    type V = Seq<RequestModel>;

    open spec fn view(&self) -> Seq<RequestModel> {
        self.requests@.map_values(|r: HttpRequest| r@)
    }
}

/// What a file without requests is shown as.
pub open spec fn no_requests_text() -> Seq<char> {
    "No requests found\n"@
}

/// The requests one after the other: `#`, the index, a line feed, the request on
/// one line, a line feed.
pub open spec fn spec_numbered(requests: Seq<RequestModel>) -> Seq<char>
    decreases requests.len(),
{
    if requests.len() == 0 {
        Seq::empty()
    } else {
        spec_numbered(requests.drop_last()) + seq!['#'] + spec_decimal(
            (requests.len() - 1) as nat,
        ) + seq!['\n'] + requests.last().text() + seq!['\n']
    }
}

impl HttpFile {
    /// The file as text: a fixed line where it holds no request, else its requests
    /// with their indices.
    pub fn to_text(&self) -> (text: String)
        ensures
            self@.len() == 0 ==> text@ == no_requests_text(),
            self@.len() > 0 ==> text@ == spec_numbered(self@),
    {
        if self.requests.len() == 0 {
            return String::from_str("No requests found\n");
        }
        proof {
            reveal_strlit("#");
            reveal_strlit("\n");
        }
        let mut text = String::new();
        let mut i: usize = 0;
        assert(self@.subrange(0, 0) =~= Seq::<RequestModel>::empty());
        while i < self.requests.len()
            invariant
                i <= self.requests.len(),
                text@ == spec_numbered(self@.subrange(0, i as int)),
            decreases self.requests.len() - i,
        {
            proof {
                reveal_strlit("#");
                reveal_strlit("\n");
                let upto = self@.subrange(0, i + 1);
                assert(upto.drop_last() =~= self@.subrange(0, i as int));
                assert(upto.last() == self@[i as int]);
            }
            text.append("#");
            let number = decimal(i as u64);
            text.append(number.as_str());
            text.append("\n");
            let line = self.requests[i].to_text();
            text.append(line.as_str());
            text.append("\n");
            i = i + 1;
            assert(text@ =~= spec_numbered(self@.subrange(0, i as int)));
        }
        assert(self@.subrange(0, i as int) =~= self@);
        text
    }
}

/// Why a text is no request file. Each error carries the position, counted in
/// characters from the start of the text, of the line that is at fault.
#[derive(Clone, Copy, Debug, PartialEq, Eq, Structural)]
pub enum ParseError {
    /// The line is no request line.
    RequestLine(usize),
    /// The line is neither a header nor the empty line that ends the headers.
    Header(usize),
}

/// Where the content of the line at `pos` ends: before its line feed, and before a
/// carriage return that stands just before that.
pub open spec fn content_end(s: Seq<char>, pos: int) -> int {
    let end = line_end(s, pos);
    if end > pos && s[end - 1] == '\r' {
        end - 1
    } else {
        end
    }
}

/// Where the line after the one at `pos` begins, or the length of `s`.
pub open spec fn next_line(s: Seq<char>, pos: int) -> int {
    let end = line_end(s, pos);
    if end < s.len() {
        end + 1
    } else {
        s.len() as int
    }
}

/// The method that a word names, if it names one.
pub open spec fn method_of(word: Seq<char>) -> Option<HttpMethod> {
    if word == "GET"@ {
        Some(HttpMethod::Get)
    } else if word == "POST"@ {
        Some(HttpMethod::Post)
    } else if word == "PUT"@ {
        Some(HttpMethod::Put)
    } else if word == "DELETE"@ {
        Some(HttpMethod::Delete)
    } else {
        None
    }
}

/// The version that a word of the form `HTTP/version` gives.
pub open spec fn version_of(word: Seq<char>) -> Option<Seq<char>> {
    if word.len() >= 5 && word.subrange(0, 5) == "HTTP/"@ {
        Some(word.subrange(5, word.len() as int))
    } else {
        None
    }
}

/// Method, target and version of the request line in `pos..end`. The line holds one
/// to three words between spaces and tabs: a target alone; a method and a target; a
/// target and a version; or all three. A missing method is `GET`, a missing version
/// is empty.
pub open spec fn request_line(s: Seq<char>, pos: int, end: int) -> Option<
    (HttpMethod, Seq<char>, Seq<char>),
> {
    let a = skip_blanks(s, pos, end);
    let a2 = word_end(s, a, end);
    let b = skip_blanks(s, a2, end);
    let b2 = word_end(s, b, end);
    let c = skip_blanks(s, b2, end);
    let c2 = word_end(s, c, end);
    let d = skip_blanks(s, c2, end);
    let first = s.subrange(a, a2);
    let second = s.subrange(b, b2);
    let third = s.subrange(c, c2);
    if a2 == a {
        None
    } else if b2 == b {
        Some((HttpMethod::Get, first, Seq::empty()))
    } else if c2 == c {
        if method_of(first) is Some {
            Some((method_of(first)->Some_0, second, Seq::empty()))
        } else if version_of(second) is Some {
            Some((HttpMethod::Get, first, version_of(second)->Some_0))
        } else {
            None
        }
    } else if d == end && method_of(first) is Some && version_of(third) is Some {
        Some((method_of(first)->Some_0, second, version_of(third)->Some_0))
    } else {
        None
    }
}

/// The headers on the lines from `pos` on, and where the body begins. The headers
/// end at an empty line or at the end of the text. A header line holds a name that
/// is not empty, a colon, and a value that begins after the spaces and tabs behind
/// the colon.
pub open spec fn headers_from(s: Seq<char>, pos: int) -> Result<
    (Seq<(Seq<char>, Seq<char>)>, int),
    ParseError,
>
    decreases s.len() - pos,
{
    if pos < 0 || pos >= s.len() {
        Ok((Seq::empty(), s.len() as int))
    } else {
        let end = content_end(s, pos);
        let next = next_line(s, pos);
        let colon = find_char(s, ':', pos, end);
        if end == pos || next <= pos {
            Ok((Seq::empty(), next))
        } else if colon == pos || colon >= end {
            Err(ParseError::Header(pos as usize))
        } else {
            match headers_from(s, next) {
                Err(e) => Err(e),
                Ok((rest, body)) => Ok(
                    (
                        seq![
                            (
                                s.subrange(pos, colon),
                                s.subrange(skip_blanks(s, colon + 1, end), end),
                            ),
                        ] + rest,
                        body,
                    ),
                ),
            }
        }
    }
}

/// Whether a separator line begins at `pos`.
pub open spec fn is_delimiter_at(s: Seq<char>, pos: int) -> bool {
    0 <= pos && pos + 3 <= s.len() && s[pos] == '#' && s[pos + 1] == '#' && s[pos + 2] == '#'
}

/// Where a body that begins at the line at `pos` ends: at the first following line
/// that is a separator, or at the end of the text.
pub open spec fn body_end(s: Seq<char>, pos: int) -> int
    decreases s.len() - pos,
{
    if pos < 0 || pos >= s.len() {
        s.len() as int
    } else if is_delimiter_at(s, pos) {
        pos
    } else if next_line(s, pos) <= pos {
        s.len() as int
    } else {
        body_end(s, next_line(s, pos))
    }
}

/// The request that begins at `pos`, and where it ends.
pub open spec fn request_at(s: Seq<char>, pos: int) -> Result<(RequestModel, int), ParseError> {
    match request_line(s, pos, content_end(s, pos)) {
        None => Err(ParseError::RequestLine(pos as usize)),
        Some((method, url, version)) => match headers_from(s, next_line(s, pos)) {
            Err(e) => Err(e),
            Ok((headers, body)) => Ok(
                (
                    RequestModel {
                        method,
                        url,
                        version,
                        headers,
                        body: s.subrange(body, body_end(s, body)),
                    },
                    body_end(s, body),
                ),
            ),
        },
    }
}

/// The requests from `pos` on. A separator line is passed over together with the
/// spaces, tabs and line ends that follow it.
pub open spec fn requests_from(s: Seq<char>, pos: int) -> Result<Seq<RequestModel>, ParseError>
    decreases s.len() - pos,
{
    if pos < 0 || pos >= s.len() {
        Ok(Seq::empty())
    } else if is_delimiter_at(s, pos) {
        if skip_spaces(s, next_line(s, pos)) <= pos || skip_spaces(s, next_line(s, pos))
            > s.len() {
            Ok(Seq::empty())
        } else {
            requests_from(s, skip_spaces(s, next_line(s, pos)))
        }
    } else {
        match request_at(s, pos) {
            Err(e) => Err(e),
            Ok((request, next)) => if next <= pos || next > s.len() {
                Ok(seq![request])
            } else {
                match requests_from(s, next) {
                    Err(e) => Err(e),
                    Ok(rest) => Ok(seq![request] + rest),
                }
            },
        }
    }
}

/// The requests of a text: those that follow the spaces, tabs and line ends at its
/// start.
pub open spec fn spec_parse(s: Seq<char>) -> Result<Seq<RequestModel>, ParseError> {
    requests_from(s, skip_spaces(s, 0))
}

fn find_content_end(s: &str, pos: usize, len: usize) -> (ends: (usize, usize))
    requires
        len == s@.len(),
        pos < len,
    ensures
        ends.0 == content_end(s@, pos as int),
        ends.1 == next_line(s@, pos as int),
        pos <= ends.0 <= ends.1 <= len,
        pos < ends.1,
{
    let end = find_line_end(s, pos, len);
    let content = if end > pos && s.get_char(end - 1) == '\r' {
        end - 1
    } else {
        end
    };
    let next = if end < len {
        end + 1
    } else {
        len
    };
    (content, next)
}

fn read_method(s: &str, pos: usize, end: usize) -> (method: Option<HttpMethod>)
    requires
        pos <= end <= s@.len(),
    ensures
        method == method_of(s@.subrange(pos as int, end as int)),
{
    if part_is(s, pos, end, "GET") {
        Some(HttpMethod::Get)
    } else if part_is(s, pos, end, "POST") {
        Some(HttpMethod::Post)
    } else if part_is(s, pos, end, "PUT") {
        Some(HttpMethod::Put)
    } else if part_is(s, pos, end, "DELETE") {
        Some(HttpMethod::Delete)
    } else {
        None
    }
}

fn read_version(s: &str, pos: usize, end: usize) -> (version: Option<String>)
    requires
        pos <= end <= s@.len(),
    ensures
        version is Some == version_of(s@.subrange(pos as int, end as int)) is Some,
        version is Some ==> version->Some_0@ == version_of(
            s@.subrange(pos as int, end as int),
        )->Some_0,
{
    let ghost word = s@.subrange(pos as int, end as int);
    if end - pos >= 5 && part_is(s, pos, pos + 5, "HTTP/") {
        assert(word.subrange(0, 5) =~= s@.subrange(pos as int, pos + 5));
        assert(word.subrange(5, word.len() as int) =~= s@.subrange(pos + 5, end as int));
        Some(part(s, pos + 5, end))
    } else {
        if end - pos >= 5 {
            assert(word.subrange(0, 5) =~= s@.subrange(pos as int, pos + 5));
        }
        None
    }
}

fn read_request_line(s: &str, pos: usize, end: usize) -> (line: Option<
    (HttpMethod, String, String),
>)
    requires
        pos <= end <= s@.len(),
    ensures
        line is Some == request_line(s@, pos as int, end as int) is Some,
        line is Some ==> line->Some_0.0 == request_line(s@, pos as int, end as int)->Some_0.0
            && line->Some_0.1@ == request_line(s@, pos as int, end as int)->Some_0.1
            && line->Some_0.2@ == request_line(s@, pos as int, end as int)->Some_0.2,
{
    let a = scan_blanks(s, pos, end);
    let a2 = scan_word(s, a, end);
    let b = scan_blanks(s, a2, end);
    let b2 = scan_word(s, b, end);
    let c = scan_blanks(s, b2, end);
    let c2 = scan_word(s, c, end);
    let d = scan_blanks(s, c2, end);
    if a2 == a {
        None
    } else if b2 == b {
        Some((HttpMethod::Get, part(s, a, a2), String::new()))
    } else if c2 == c {
        match read_method(s, a, a2) {
            Some(method) => Some((method, part(s, b, b2), String::new())),
            None => match read_version(s, b, b2) {
                Some(version) => Some((HttpMethod::Get, part(s, a, a2), version)),
                None => None,
            },
        }
    } else if d == end {
        match read_method(s, a, a2) {
            Some(method) => match read_version(s, c, c2) {
                Some(version) => Some((method, part(s, b, b2), version)),
                None => None,
            },
            None => None,
        }
    } else {
        None
    }
}

/// The headers that `headers_from` gives, put behind `front`.
spec fn behind(
    front: Seq<(Seq<char>, Seq<char>)>,
    rest: Result<(Seq<(Seq<char>, Seq<char>)>, int), ParseError>,
) -> Result<(Seq<(Seq<char>, Seq<char>)>, int), ParseError> {
    match rest {
        Err(e) => Err(e),
        Ok((more, body)) => Ok((front + more, body)),
    }
}

fn read_headers(s: &str, start: usize, len: usize) -> (result: Result<
    (HttpHeaders, usize),
    ParseError,
>)
    requires
        len == s@.len(),
        start <= len,
    ensures
        match headers_from(s@, start as int) {
            Err(e) => result == Err::<(HttpHeaders, usize), ParseError>(e),
            Ok((headers, body)) => result is Ok && result->Ok_0.0@ == headers && result->Ok_0.1
                == body && start <= body <= len,
        },
{
    let mut headers = HttpHeaders::new();
    let mut pos: usize = start;
    assert(headers@ + Seq::<(Seq<char>, Seq<char>)>::empty() =~= headers@);
    assert(forall|r: Seq<(Seq<char>, Seq<char>)>|
        Seq::<(Seq<char>, Seq<char>)>::empty() + r =~= r);
    while pos < len
        invariant
            len == s@.len(),
            start <= pos <= len,
            headers_from(s@, start as int) == behind(headers@, headers_from(s@, pos as int)),
        decreases len - pos,
    {
        let (end, next) = find_content_end(s, pos, len);
        if end == pos {
            assert(headers@ + Seq::<(Seq<char>, Seq<char>)>::empty() =~= headers@);
            return Ok((headers, next));
        }
        let colon = scan_char(s, ':', pos, end);
        if colon == pos || colon >= end {
            return Err(ParseError::Header(pos));
        }
        let value_start = scan_blanks(s, colon + 1, end);
        let name = part(s, pos, colon);
        let value = part(s, value_start, end);
        proof {
            let front = headers@;
            match headers_from(s@, next as int) {
                Ok((more, body)) => {
                    assert(front + (seq![(name@, value@)] + more) =~= front.push(
                        (name@, value@),
                    ) + more);
                },
                Err(e) => {},
            }
        }
        headers.push(name, value);
        pos = next;
    }
    assert(headers@ + Seq::<(Seq<char>, Seq<char>)>::empty() =~= headers@);
    Ok((headers, len))
}

fn at_delimiter(s: &str, pos: usize, len: usize) -> (found: bool)
    requires
        len == s@.len(),
        pos <= len,
    ensures
        found == is_delimiter_at(s@, pos as int),
{
    len - pos >= 3 && s.get_char(pos) == '#' && s.get_char(pos + 1) == '#' && s.get_char(pos + 2)
        == '#'
}

fn find_body_end(s: &str, start: usize, len: usize) -> (end: usize)
    requires
        len == s@.len(),
        start <= len,
    ensures
        end == body_end(s@, start as int),
        start <= end <= len,
{
    let mut pos: usize = start;
    while pos < len
        invariant
            len == s@.len(),
            start <= pos <= len,
            body_end(s@, start as int) == body_end(s@, pos as int),
        decreases len - pos,
    {
        if at_delimiter(s, pos, len) {
            return pos;
        }
        let (_, next) = find_content_end(s, pos, len);
        pos = next;
    }
    len
}

fn read_request(s: &str, pos: usize, len: usize) -> (result: Result<
    (HttpRequest, usize),
    ParseError,
>)
    requires
        len == s@.len(),
        pos < len,
    ensures
        match request_at(s@, pos as int) {
            Err(e) => result == Err::<(HttpRequest, usize), ParseError>(e),
            Ok((request, next)) => result is Ok && result->Ok_0.0@ == request && result->Ok_0.1
                == next && pos <= next <= len,
        },
{
    let (end, next) = find_content_end(s, pos, len);
    let (method, url, version) = match read_request_line(s, pos, end) {
        Some(line) => line,
        None => {
            return Err(ParseError::RequestLine(pos));
        },
    };
    let (headers, body_start) = match read_headers(s, next, len) {
        Ok(found) => found,
        Err(e) => {
            return Err(e);
        },
    };
    let stop = find_body_end(s, body_start, len);
    let body = part(s, body_start, stop);
    Ok((HttpRequest { method, url, version, headers, body }, stop))
}

/// The requests that `requests_from` gives, put behind `front`.
spec fn after(front: Seq<RequestModel>, rest: Result<Seq<RequestModel>, ParseError>)
    -> Result<Seq<RequestModel>, ParseError> {
    match rest {
        Err(e) => Err(e),
        Ok(more) => Ok(front + more),
    }
}

/// Reads a request file. The result is the list of requests that [`spec_parse`]
/// gives for the text, or the error that it gives.
pub fn parse(input: &str) -> (result: Result<HttpFile, ParseError>)
    ensures
        match spec_parse(input@) {
            Err(e) => result == Err::<HttpFile, ParseError>(e),
            Ok(requests) => result is Ok && result->Ok_0@ == requests,
        },
{
    let len = input.unicode_len();
    let start = scan_spaces(input, 0, len);
    let mut pos: usize = start;
    let mut requests: Vec<HttpRequest> = Vec::new();
    let ghost s = input@;
    assert(requests@.map_values(|r: HttpRequest| r@) =~= Seq::<RequestModel>::empty());
    assert(forall|r: Seq<RequestModel>| Seq::<RequestModel>::empty() + r =~= r);
    while pos < len
        invariant
            len == input@.len(),
            s == input@,
            pos <= len,
            spec_parse(s) == after(
                requests@.map_values(|r: HttpRequest| r@),
                requests_from(s, pos as int),
            ),
        decreases len - pos,
    {
        let ghost front = requests@.map_values(|r: HttpRequest| r@);
        if at_delimiter(input, pos, len) {
            let (_, next) = find_content_end(input, pos, len);
            pos = scan_spaces(input, next, len);
        } else {
            match read_request(input, pos, len) {
                Err(e) => {
                    return Err(e);
                },
                Ok((request, next)) => {
                    proof {
                        let added = requests@.push(request).map_values(|r: HttpRequest| r@);
                        assert(added =~= front.push(request@));
                        assert(front + seq![request@] =~= front.push(request@));
                        if next > pos {
                            match requests_from(s, next as int) {
                                Ok(more) => {
                                    assert(front + (seq![request@] + more) =~= front.push(
                                        request@,
                                    ) + more);
                                },
                                Err(e) => {},
                            }
                        } else {
                            assert(front.push(request@) + Seq::<RequestModel>::empty()
                                =~= front.push(request@));
                        }
                    }
                    requests.push(request);
                    if next <= pos {
                        let file = HttpFile { requests };
                        return Ok(file);
                    }
                    pos = next;
                },
            }
        }
    }
    let file = HttpFile { requests };
    assert(file@ + Seq::<RequestModel>::empty() =~= file@);
    Ok(file)
}

} // verus!
