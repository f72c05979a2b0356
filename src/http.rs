use vstd::prelude::*;

use crate::text::{before_first, decimal, decimal_text, split_words, text_before, views, words};

verus! {

/// The most bytes a request header may take, its blank line included.
pub const HEADER_LIMIT: usize = 65536;

/// The blank line that ends a header, `\r\n\r\n`, starts at `i` in `s`.
pub open spec fn ends_header_at(s: Seq<u8>, i: int) -> bool {
    0 <= i && i + 4 <= s.len() && s[i] == 13u8 && s[i + 1] == 10u8 && s[i + 2] == 13u8 && s[i
        + 3] == 10u8
}

/// `s` holds no blank line that ends a header.
pub open spec fn no_header_end(s: Seq<u8>) -> bool {
    forall|i: int| !#[trigger] ends_header_at(s, i)
}

/// What the reader asks of the connection after looking at the bytes that
/// wait on it.
#[derive(Clone, Copy, Debug, PartialEq, Eq, Structural)]
pub enum HeaderStep {
    /// Take this many bytes off the connection; the header is complete.
    Done { consume: usize },
    /// Take this many bytes off the connection and look again.
    More { consume: usize },
    /// The connection ended before the header did.
    UnexpectedEof,
    /// The header is longer than the limit.
    TooLarge,
}

/// Gathers a request header, blank line included, from the bytes that wait
/// on a connection.
pub struct HeaderReader {
    /// The header bytes taken so far.
    pub bytes: Vec<u8>,
}

/// Where the first blank line of `s` at or after `from` starts, if any.
pub open spec fn first_end_from(s: Seq<u8>, from: int) -> Option<int>
    decreases s.len() - from,
{
    if from < 0 || from + 4 > s.len() {
        None
    } else if ends_header_at(s, from) {
        Some(from)
    } else {
        first_end_from(s, from + 1)
    }
}

/// Where the first blank line of `s` starts, if it has one.
pub open spec fn first_end(s: Seq<u8>) -> Option<int> {
    first_end_from(s, 0)
}

/// The result of handing `peeked` to a reader that holds `held`: the step,
/// and the bytes held after it.
pub open spec fn header_step(held: Seq<u8>, peeked: Seq<u8>) -> (HeaderStep, Seq<u8>) {
    let all = held + peeked;
    if peeked.len() == 0 {
        (HeaderStep::UnexpectedEof, held)
    } else {
        match first_end(all) {
            Some(i) => if i + 4 > HEADER_LIMIT {
                (HeaderStep::TooLarge, held)
            } else {
                (HeaderStep::Done { consume: (i + 4 - held.len()) as usize }, all.subrange(0, i + 4))
            },
            None => if all.len() > HEADER_LIMIT {
                (HeaderStep::TooLarge, held)
            } else {
                (HeaderStep::More { consume: peeked.len() as usize }, all)
            },
        }
    }
}

impl HeaderReader {
    pub fn new() -> (r: HeaderReader)
        ensures
            r.bytes@ == Seq::<u8>::empty(),
    {
        HeaderReader { bytes: Vec::new() }
    }

    /// What the reader holds has no blank line yet and fits the limit.
    pub open spec fn wf(&self) -> bool {
        no_header_end(self.bytes@) && self.bytes@.len() <= HEADER_LIMIT
    }

    /// Takes the first `count` bytes of `peeked`.
    fn take(&mut self, peeked: &[u8], count: usize)
        requires
            count <= peeked@.len(),
        ensures
            final(self).bytes@ == old(self).bytes@ + peeked@.subrange(0, count as int),
    {
        let mut j: usize = 0;
        while j < count
            invariant
                count <= peeked@.len(),
                j <= count,
                self.bytes@ == old(self).bytes@ + peeked@.subrange(0, j as int),
            decreases count - j,
        {
            self.bytes.push(peeked[j]);
            assert(self.bytes@ =~= old(self).bytes@ + peeked@.subrange(0, j as int + 1));
            j = j + 1;
        }
    }

    /// Looks at the bytes `peeked` that wait on the connection. When they
    /// complete the header (at the first blank line), takes what ends it;
    /// else takes them all. Fails on an empty peek (the connection ended) and
    /// when the header would pass the limit.
    pub fn step(&mut self, peeked: &[u8]) -> (r: HeaderStep)
        requires
            old(self).wf(),
        ensures
            (r, final(self).bytes@) == header_step(old(self).bytes@, peeked@),
            r is More ==> final(self).wf(),
    {
        let held = self.bytes.len();
        let n = peeked.len();
        if n == 0 {
            return HeaderStep::UnexpectedEof;
        }
        let ghost all = self.bytes@ + peeked@;
        // Only a blank line that ends within the limit completes a header.
        let capped = n > HEADER_LIMIT - held;
        let bound = if capped { HEADER_LIMIT } else { held + n };
        match self.find_end(peeked, bound) {
            Some(i) => {
                proof {
                    lemma_first_end(all, i as int);
                    if i + 4 <= held {
                        assert(ends_header_at(self.bytes@, i as int));
                    }
                }
                let consume = i + 4 - held;
                self.take(peeked, consume);
                assert(self.bytes@ =~= all.subrange(0, i + 4));
                HeaderStep::Done { consume }
            },
            None => {
                proof {
                    lemma_no_end_before(all, bound as int);
                }
                if capped {
                    return HeaderStep::TooLarge;
                }
                self.take(peeked, n);
                assert(self.bytes@ =~= all);
                HeaderStep::More { consume: n }
            },
        }
    }

    /// The first place before `bound` where a blank line starts in the bytes
    /// held followed by `peeked`.
    fn find_end(&self, peeked: &[u8], bound: usize) -> (r: Option<usize>)
        requires
            self.wf(),
            bound <= HEADER_LIMIT,
            self.bytes@.len() <= bound <= self.bytes@.len() + peeked@.len(),
        ensures
            r matches Some(i) ==> i + 4 <= bound && ends_header_at(self.bytes@ + peeked@, i as int)
                && forall|j: int| j < i ==> !ends_header_at(self.bytes@ + peeked@, j),
            r is None ==> forall|j: int|
                j + 4 <= bound ==> !ends_header_at(self.bytes@ + peeked@, j),
    {
        let ghost all = self.bytes@ + peeked@;
        let held = self.bytes.len();
        // A blank line may start in the last three bytes already held.
        let mut i: usize = if held >= 3 { held - 3 } else { 0 };
        proof {
            assert forall|j: int| j < i implies !ends_header_at(all, j) by {
                if ends_header_at(all, j) {
                    assert(ends_header_at(self.bytes@, j));
                }
            }
        }
        while i + 4 <= bound
            invariant
                held == self.bytes@.len(),
                bound <= HEADER_LIMIT,
                i <= bound,
                bound <= held + peeked@.len(),
                all == self.bytes@ + peeked@,
                forall|j: int| j < i ==> !ends_header_at(all, j),
            decreases bound - i,
        {
            if byte_at(&self.bytes, peeked, i) == 13 && byte_at(&self.bytes, peeked, i + 1) == 10
                && byte_at(&self.bytes, peeked, i + 2) == 13 && byte_at(&self.bytes, peeked, i + 3)
                == 10 {
                return Some(i);
            }
            i = i + 1;
        }
        None
    }
}

/// What the search from `from` finds: the first blank line from there on.
proof fn lemma_first_end_from(s: Seq<u8>, from: int)
    requires
        from >= 0,
    ensures
        first_end_from(s, from) matches Some(k) ==> from <= k && ends_header_at(s, k) && forall|
            j: int,
        | from <= j < k ==> !ends_header_at(s, j),
        first_end_from(s, from) is None ==> forall|j: int| from <= j ==> !ends_header_at(s, j),
    decreases s.len() - from,
{
    if from + 4 <= s.len() && !ends_header_at(s, from) {
        lemma_first_end_from(s, from + 1);
        assert forall|j: int| from <= j && j < from + 1 implies !ends_header_at(s, j) by {
            assert(j == from);
        }
    }
}

/// The first blank line of `s` is the one at `i` when none comes before.
proof fn lemma_first_end(s: Seq<u8>, i: int)
    requires
        ends_header_at(s, i),
        forall|j: int| j < i ==> !ends_header_at(s, j),
    ensures
        first_end(s) == Some(i),
{
    lemma_first_end_from(s, 0);
}

/// When no blank line ends by `bound`, the first one ends past it; when
/// `bound` is the whole length, there is none.
proof fn lemma_no_end_before(s: Seq<u8>, bound: int)
    requires
        forall|j: int| j + 4 <= bound ==> !ends_header_at(s, j),
    ensures
        first_end(s) matches Some(k) ==> k + 4 > bound,
        bound >= s.len() ==> first_end(s) is None,
{
    lemma_first_end_from(s, 0);
}

/// Byte `k` of the bytes held followed by those peeked.
fn byte_at(held: &Vec<u8>, peeked: &[u8], k: usize) -> (r: u8)
    requires
        k < held@.len() + peeked@.len(),
    ensures
        r == (held@ + peeked@)[k as int],
{
    if k < held.len() {
        held[k]
    } else {
        peeked[k - held.len()]
    }
}

/// Why a request could not be read.
#[derive(Clone, Copy, Debug, PartialEq, Eq, Structural)]
pub enum RequestError {
    /// The request line holds no path.
    MissingPath,
}

/// The path of a request: the second word of its first line (what stands
/// before the first `\r`), without the query that follows a `?`.
pub open spec fn request_path_of(header: Seq<char>) -> Option<Seq<char>> {
    let ws = words(before_first(header, '\r'));
    if ws.len() >= 2 {
        Some(before_first(ws[1], '?'))
    } else {
        None
    }
}

/// Reads the requested path out of a request header.
pub fn parse_request_path(header: &str) -> (r: Result<String, RequestError>)
    ensures
        r matches Ok(p) ==> request_path_of(header@) == Some(p@),
        r is Err <==> request_path_of(header@) is None,
        r matches Err(e) ==> e == RequestError::MissingPath,
{
    let line = text_before(header, '\r');
    let ws = split_words(line.as_str());
    if ws.len() < 2 {
        assert(views(ws@).len() == ws@.len());
        return Err(RequestError::MissingPath);
    }
    assert(views(ws@)[1] == ws@[1]@);
    Ok(text_before(ws[1].as_str(), '?'))
}

/// The status of a response.
#[derive(Clone, Copy, Debug, PartialEq, Eq, Structural)]
pub enum Status {
    Success,
    BadRequest,
    NotFound,
    InternalServerError,
}

/// The status line of a response, with its line end.
pub open spec fn status_line(s: Status) -> Seq<char> {
    match s {
        Status::Success => "HTTP/1.1 200 OK\r\n"@,
        Status::BadRequest => "HTTP/1.1 400 BAD REQUEST\r\n"@,
        Status::NotFound => "HTTP/1.1 404 NOT FOUND\r\n"@,
        Status::InternalServerError => "HTTP/1.1 500 INTERNAL SERVER ERROR\r\n"@,
    }
}

/// The head of a response: its status line; the length and type of its body
/// when it has one; and the blank line.
pub open spec fn head_text(s: Status, body: Option<(u64, Seq<char>)>) -> Seq<char> {
    match body {
        Some((len, content_type)) => status_line(s) + "Content-Length: "@ + decimal_text(
            len as nat,
        ) + "\r\n"@ + "Content-Type: "@ + content_type + "\r\n"@ + "\r\n"@,
        None => status_line(s) + "\r\n"@,
    }
}

/// The head of a response, ready to be written.
pub fn response_head(status: Status, body: Option<(u64, &str)>) -> (r: String)
    ensures
        r@ == head_text(
            status,
            match body {
                Some((len, t)) => Some((len, t@)),
                None => None,
            },
        ),
{
    let mut out = match status {
        Status::Success => String::from_str("HTTP/1.1 200 OK\r\n"),
        Status::BadRequest => String::from_str("HTTP/1.1 400 BAD REQUEST\r\n"),
        Status::NotFound => String::from_str("HTTP/1.1 404 NOT FOUND\r\n"),
        Status::InternalServerError => String::from_str("HTTP/1.1 500 INTERNAL SERVER ERROR\r\n"),
    };
    match body {
        Some((len, content_type)) => {
            out.append("Content-Length: ");
            let digits = decimal(len);
            out.append(digits.as_str());
            out.append("\r\n");
            out.append("Content-Type: ");
            out.append(content_type);
            out.append("\r\n");
            out.append("\r\n");
        },
        None => {
            out.append("\r\n");
        },
    }
    out
}

} // verus!
