//! A response as plain values, its lines for display, and its bytes for saving.

use vstd::prelude::*;
use vstd::string::*;
use vstd::utf8::{
    decode_utf8, encode_utf8, encode_utf8_decode_utf8, encode_utf8_valid_utf8, valid_utf8,
};
use crate::text::{decimal, lines, spec_decimal, spec_lines, views};

verus! {

/// A payload that is kept as the bytes that arrived.
#[derive(Clone, Debug)]
pub struct BytePayload {
    pub extension: Option<String>,
    pub bytes: Vec<u8>,
}

/// A payload that was decoded to text.
#[derive(Clone, Debug)]
pub struct TextPayload {
    pub extension: Option<String>,
    pub charset: String,
    pub text: String,
}

/// What a response carries.
#[derive(Clone, Debug)]
pub enum Payload {
    Bytes(BytePayload),
    Text(TextPayload),
}

/// What came back for a request.
#[derive(Clone, Debug)]
pub struct Response {
    pub status: u16,
    pub headers: Vec<(String, String)>,
    pub version: String,
    pub payload: Payload,
}

/// Colours that the display tells apart.
#[derive(Clone, Copy, Debug, PartialEq, Eq, Structural)]
pub enum Color {
    Plain,
    Green,
    Yellow,
    Red,
    Blue,
}

/// The line that stands for a payload of raw bytes on the display.
pub open spec fn raw_placeholder() -> Seq<char> {
    seq!['r', 'a', 'w', ' ', 'b', 'y', 't', 'e', 's']
}

/// Header names and values as plain values.
pub open spec fn header_views(headers: Seq<(String, String)>) -> Seq<(Seq<char>, Seq<char>)> {
    headers.map_values(|h: (String, String)| (h.0@, h.1@))
}

/// One header on a line of its own: name, colon, space, value.
pub open spec fn header_line(header: (Seq<char>, Seq<char>)) -> Seq<char> {
    header.0 + seq![':', ' '] + header.1
}

/// All headers, each on its line and each line ended by a line feed.
pub open spec fn header_block(headers: Seq<(Seq<char>, Seq<char>)>) -> Seq<char>
    decreases headers.len(),
{
    if headers.len() == 0 {
        Seq::empty()
    } else {
        header_block(headers.drop_last()) + header_line(headers.last()) + seq!['\n']
    }
}

/// The colour for a status code: green for 200 to 299, yellow for 300 to 399, red
/// for 400 to 599, plain otherwise.
pub open spec fn spec_status_code_color(status: u16) -> Color {
    if 200 <= status < 300 {
        Color::Green
    } else if 300 <= status < 400 {
        Color::Yellow
    } else if 400 <= status < 600 {
        Color::Red
    } else {
        Color::Plain
    }
}

#[verifier::when_used_as_spec(spec_status_code_color)]
pub fn status_code_color(status: u16) -> (color: Color)
    ensures
        color == spec_status_code_color(status),
{
    if 200 <= status && status < 300 {
        Color::Green
    } else if 300 <= status && status < 400 {
        Color::Yellow
    } else if 400 <= status && status < 600 {
        Color::Red
    } else {
        Color::Plain
    }
}

impl Payload {
    /// The payload exactly as it is saved: the text in UTF-8, or the raw bytes.
    pub open spec fn spec_bytes(&self) -> Seq<u8> {
        match self {
            Payload::Text(t) => encode_utf8(t.text@),
            Payload::Bytes(b) => b.bytes@,
        }
    }

    /// The lines that stand for the payload on the display: the lines of the text,
    /// or one placeholder line for raw bytes.
    pub open spec fn spec_lines(&self) -> Seq<Seq<char>> {
        match self {
            Payload::Text(t) => spec_lines(t.text@),
            Payload::Bytes(_) => seq![raw_placeholder()],
        }
    }

    pub fn to_bytes(&self) -> (out: Vec<u8>)
        ensures
            out@ == self.spec_bytes(),
    {
        match self {
            Payload::Text(t) => t.text.as_str().as_bytes_vec(),
            Payload::Bytes(b) => {
                let mut out: Vec<u8> = Vec::new();
                append_bytes(&mut out, &b.bytes);
                assert(out@ =~= b.bytes@);
                out
            },
        }
    }

    pub fn display_lines(&self) -> (out: Vec<String>)
        ensures
            views(out@) == self.spec_lines(),
    {
        match self {
            Payload::Text(t) => lines(t.text.as_str()),
            Payload::Bytes(_) => {
                proof {
                    reveal_strlit("raw bytes");
                }
                let line = String::from_str("raw bytes");
                assert(line@ =~= raw_placeholder());
                let out = vec![line];
                assert(views(out@) =~= seq![raw_placeholder()]);
                out
            },
        }
    }
}

/// Appends the bytes of `more` to `out`.
pub fn append_bytes(out: &mut Vec<u8>, more: &Vec<u8>)
    ensures
        final(out)@ == old(out)@ + more@,
{
    let mut i: usize = 0;
    while i < more.len()
        invariant
            i <= more.len(),
            out@ == old(out)@ + more@.subrange(0, i as int),
        decreases more.len() - i,
    {
        out.push(more[i]);
        i = i + 1;
        assert(out@ =~= old(out)@ + more@.subrange(0, i as int));
    }
    assert(more@.subrange(0, i as int) =~= more@);
}

impl Response {
    /// The first line: protocol version, a space, the status code in base ten.
    pub open spec fn spec_status_line(&self) -> Seq<char> {
        self.version@ + seq![' '] + spec_decimal(self.status as nat)
    }

    /// All that stands before the payload in a saved response: the first line, the
    /// headers, each ended by a line feed, and two more line feeds.
    pub open spec fn spec_head(&self) -> Seq<char> {
        self.spec_status_line() + seq!['\n'] + header_block(header_views(self.headers@))
            + seq!['\n', '\n']
    }

    /// The whole response as it is saved: head and payload. With a text payload the
    /// file is the UTF-8 form of head and text together.
    pub open spec fn spec_bytes(&self) -> Seq<u8> {
        match self.payload {
            Payload::Text(t) => encode_utf8(self.spec_head() + t.text@),
            Payload::Bytes(b) => encode_utf8(self.spec_head()) + b.bytes@,
        }
    }

    /// The lines of the display: the first line, one line per header, an empty
    /// line, then the payload's lines.
    pub open spec fn spec_lines(&self) -> Seq<Seq<char>> {
        seq![self.spec_status_line()] + header_views(self.headers@).map_values(
            |h: (Seq<char>, Seq<char>)| header_line(h),
        ) + seq![Seq::<char>::empty()] + self.payload.spec_lines()
    }

    pub fn status_line(&self) -> (line: String)
        ensures
            line@ == self.spec_status_line(),
    {
        proof {
            reveal_strlit(" ");
        }
        let mut line = self.version.clone();
        line.append(" ");
        let code = decimal(self.status as u64);
        line.append(code.as_str());
        assert(line@ =~= self.spec_status_line());
        line
    }

    /// One line per header, in the order in which the headers are held.
    pub fn header_lines(&self) -> (out: Vec<String>)
        ensures
            views(out@) == header_views(self.headers@).map_values(
                |h: (Seq<char>, Seq<char>)| header_line(h),
            ),
    {
        let mut out: Vec<String> = Vec::new();
        let mut i: usize = 0;
        let ghost want = header_views(self.headers@).map_values(
            |h: (Seq<char>, Seq<char>)| header_line(h),
        );
        assert(views(out@) =~= want.subrange(0, 0));
        while i < self.headers.len()
            invariant
                i <= self.headers.len(),
                want == header_views(self.headers@).map_values(
                    |h: (Seq<char>, Seq<char>)| header_line(h),
                ),
                views(out@) == want.subrange(0, i as int),
            decreases self.headers.len() - i,
        {
            proof {
                reveal_strlit(": ");
            }
            let mut line = self.headers[i].0.clone();
            line.append(": ");
            line.append(self.headers[i].1.as_str());
            assert(line@ =~= want[i as int]);
            assert(views(out@.push(line)) =~= views(out@).push(line@));
            assert(want.subrange(0, i as int).push(want[i as int]) =~= want.subrange(0, i + 1));
            out.push(line);
            i = i + 1;
        }
        assert(want.subrange(0, i as int) =~= want);
        out
    }

    fn head(&self) -> (text: String)
        ensures
            text@ == self.spec_head(),
    {
        proof {
            reveal_strlit("\n");
            reveal_strlit(": ");
            reveal_strlit("\n\n");
        }
        let mut text = self.status_line();
        text.append("\n");
        let ghost first = text@;
        let ghost all = header_views(self.headers@);
        let mut i: usize = 0;
        assert(all.subrange(0, 0) =~= Seq::<(Seq<char>, Seq<char>)>::empty());
        while i < self.headers.len()
            invariant
                i <= self.headers.len(),
                all == header_views(self.headers@),
                first == self.spec_status_line() + seq!['\n'],
                text@ == first + header_block(all.subrange(0, i as int)),
            decreases self.headers.len() - i,
        {
            proof {
                reveal_strlit("\n");
                reveal_strlit(": ");
                let upto = all.subrange(0, i + 1);
                assert(upto.drop_last() =~= all.subrange(0, i as int));
                assert(upto.last() == all[i as int]);
            }
            text.append(self.headers[i].0.as_str());
            text.append(": ");
            text.append(self.headers[i].1.as_str());
            text.append("\n");
            i = i + 1;
            assert(text@ =~= first + header_block(all.subrange(0, i as int)));
        }
        assert(all.subrange(0, i as int) =~= all);
        text.append("\n\n");
        assert(text@ =~= self.spec_head());
        text
    }

    /// The bytes of the whole response as they are saved.
    pub fn to_bytes(&self) -> (out: Vec<u8>)
        ensures
            out@ == self.spec_bytes(),
    {
        let mut text = self.head();
        match &self.payload {
            Payload::Text(t) => {
                text.append(t.text.as_str());
                text.as_str().as_bytes_vec()
            },
            Payload::Bytes(b) => {
                let mut out = text.as_str().as_bytes_vec();
                append_bytes(&mut out, &b.bytes);
                out
            },
        }
    }

    /// The lines of the display.
    pub fn display_lines(&self) -> (out: Vec<String>)
        ensures
            views(out@) == self.spec_lines(),
    {
        let mut out: Vec<String> = Vec::new();
        out.push(self.status_line());
        let mut headers = self.header_lines();
        let ghost h = headers@;
        out.append(&mut headers);
        out.push(String::new());
        let mut body = self.payload.display_lines();
        let ghost b = body@;
        out.append(&mut body);
        assert(views(out@) =~= seq![self.spec_status_line()] + views(h) + seq![
            Seq::<char>::empty(),
        ] + views(b));
        out
    }
}

/// A saved response reads back as what was recorded. With a text payload the whole
/// file is valid UTF-8 and decodes to the head followed by the text, and the file of
/// the body alone decodes to the text. With a payload of bytes the whole file is the
/// head in UTF-8 followed by exactly the bytes, and the file of the body alone is
/// exactly the bytes.
pub proof fn saved_response_reads_back(response: Response)
    ensures
        match response.payload {
            Payload::Text(t) => {
                &&& valid_utf8(response.spec_bytes())
                &&& decode_utf8(response.spec_bytes()) == response.spec_head() + t.text@
                &&& valid_utf8(response.payload.spec_bytes())
                &&& decode_utf8(response.payload.spec_bytes()) == t.text@
            },
            Payload::Bytes(b) => {
                let head = encode_utf8(response.spec_head());
                &&& valid_utf8(head)
                &&& decode_utf8(head) == response.spec_head()
                &&& response.spec_bytes().len() == head.len() + b.bytes@.len()
                &&& response.spec_bytes().subrange(0, head.len() as int) == head
                &&& response.spec_bytes().subrange(
                    head.len() as int,
                    response.spec_bytes().len() as int,
                ) == b.bytes@
                &&& response.payload.spec_bytes() == b.bytes@
            },
        },
{
    match response.payload {
        Payload::Text(t) => {
            encode_utf8_valid_utf8(response.spec_head() + t.text@);
            encode_utf8_decode_utf8(response.spec_head() + t.text@);
            encode_utf8_valid_utf8(t.text@);
            encode_utf8_decode_utf8(t.text@);
        },
        Payload::Bytes(b) => {
            let head = encode_utf8(response.spec_head());
            encode_utf8_valid_utf8(response.spec_head());
            encode_utf8_decode_utf8(response.spec_head());
            assert(response.spec_bytes().subrange(0, head.len() as int) =~= head);
            assert(response.spec_bytes().subrange(
                head.len() as int,
                response.spec_bytes().len() as int,
            ) =~= b.bytes@);
        },
    }
}

} // verus!
