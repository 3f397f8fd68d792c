//! The HTTP/1.1 framing of the local bridge: when a request has fully
//! arrived, its request line, target, query and body, the endpoint it asks
//! for, and the text of a response.

use vstd::prelude::*;
use vstd::string::StringSliceAdditionalSpecFns;
use vstd::utf8::{decode_utf8, encode_utf8, valid_utf8};
use crate::drive::{find_value, first_value, pair_views};
use crate::numeric::{decimal, decimal_text, parse_usize, parsed_usize};
use crate::search::{
    find_bytes, find_char, find_char_from, find_chars, find_seq, occurs_at, lemma_find_char_facts,
    lemma_find_char_found, lemma_find_seq_facts,
};
use crate::text::{
    text_eq,
    all_white, chars_of, is_white_space, is_white_space_char, lemma_trim_start_skip,
    lemma_word_len_skip, string_of, trim, trim_start, trimmed, word_len,
};

verus! {

/// A line without the carriage return that ended it.
pub open spec fn strip_cr(line: Seq<char>) -> Seq<char> {
    if line.len() > 0 && line.last() == '\r' {
        line.drop_last()
    } else {
        line
    }
}

/// The lines of a text as `str::lines` yields them: split at each `\n`,
/// a `\r` just before the `\n` dropped, no empty line after a final `\n`.
pub open spec fn text_lines(s: Seq<char>) -> Seq<Seq<char>>
    decreases s.len(),
{
    if s.len() == 0 {
        seq![]
    } else {
        match find_char(s, '\n') {
            Some(k) => if 0 <= k < s.len() {
                seq![strip_cr(s.subrange(0, k))] + text_lines(s.subrange(k + 1, s.len() as int))
            } else {
                seq![]
            },
            None => seq![s],
        }
    }
}

/// `a` equals the lowercase ASCII pattern `lower` when ASCII letters are
/// compared without regard to case: `str::eq_ignore_ascii_case` against such
/// a pattern.
pub open spec fn eq_ignore_ascii_case(a: Seq<char>, lower: Seq<char>) -> bool {
    a.len() == lower.len() && forall|i: int|
        0 <= i < a.len() ==> (#[trigger] a[i] == lower[i] || ('A' <= a[i] && a[i] <= 'Z' && a[i]
            as u32 + 32 == lower[i] as u32))
}

/// The length that one header line declares, if it is a `Content-Length`
/// line whose value reads as a `usize`.
pub open spec fn header_content_length(line: Seq<char>) -> Option<usize> {
    match find_char(line, ':') {
        Some(k) => if 0 <= k < line.len() && eq_ignore_ascii_case(
            line.subrange(0, k),
            "content-length"@,
        ) {
            parsed_usize(trimmed(line.subrange(k + 1, line.len() as int)))
        } else {
            None
        },
        None => None,
    }
}

/// The first length that a list of header lines declares.
pub open spec fn first_content_length(lines: Seq<Seq<char>>) -> Option<usize>
    decreases lines.len(),
{
    if lines.len() == 0 {
        None
    } else {
        match header_content_length(lines[0]) {
            Some(n) => Some(n),
            None => first_content_length(lines.drop_first()),
        }
    }
}

/// The body length that a request's header text declares, 0 when none does.
pub open spec fn content_length_of(headers: Seq<char>) -> usize {
    match first_content_length(text_lines(headers)) {
        Some(n) => n,
        None => 0,
    }
}

proof fn lemma_text_lines_step(s: Seq<char>, pos: int, k: int)
    requires
        0 <= pos <= k < s.len(),
        find_char(s.subrange(pos, s.len() as int), '\n') == Some(k - pos),
    ensures
        text_lines(s.subrange(pos, s.len() as int)) == seq![strip_cr(s.subrange(pos, k))]
            + text_lines(s.subrange(k + 1, s.len() as int)),
{
    let t = s.subrange(pos, s.len() as int);
    assert(t.subrange(0, k - pos) =~= s.subrange(pos, k));
    assert(t.subrange(k - pos + 1, t.len() as int) =~= s.subrange(k + 1, s.len() as int));
}

proof fn lemma_first_content_length_cons(x: Seq<char>, rest: Seq<Seq<char>>)
    ensures
        first_content_length(seq![x] + rest) == match header_content_length(x) {
            Some(n) => Some(n),
            None => first_content_length(rest),
        },
{
    assert((seq![x] + rest).drop_first() =~= rest);
    assert((seq![x] + rest)[0] == x);
}

/// Whether `a` matches the lowercase ASCII pattern `lower`, ignoring the case
/// of ASCII letters in `a`.
pub fn matches_ignore_ascii_case(a: &str, lower: &str) -> (r: bool)
    ensures
        r == eq_ignore_ascii_case(a@, lower@),
{
    let x = chars_of(a);
    let y = chars_of(lower);
    if x.len() != y.len() {
        return false;
    }
    let mut i: usize = 0;
    while i < x.len()
        invariant
            x@ == a@,
            y@ == lower@,
            x.len() == y.len(),
            i <= x.len(),
            forall|k: int|
                0 <= k < i ==> (#[trigger] x@[k] == y@[k] || ('A' <= x@[k] && x@[k] <= 'Z'
                    && x@[k] as u32 + 32 == y@[k] as u32)),
        decreases x.len() - i,
    {
        let c = x[i];
        let d = y[i];
        if !(c == d || ('A' <= c && c <= 'Z' && (c as u32) + 32 == (d as u32))) {
            return false;
        }
        i = i + 1;
    }
    true
}

/// The length one header line declares, if it is a `Content-Length` line.
pub fn header_length(line: &str) -> (r: Option<usize>)
    ensures
        r == header_content_length(line@),
{
    let chars = chars_of(line);
    match find_char_from(&chars, 0, ':') {
        Some(k) => {
            assert(chars@.subrange(0, chars@.len() as int) =~= chars@);
            proof {
                lemma_find_char_facts(line@, ':');
            }
            let name = string_of(&chars, 0, k);
            let matches = matches_ignore_ascii_case(name.as_str(), "content-length");
            if matches {
                let value = string_of(&chars, k + 1, chars.len());
                let t = trim(value.as_str());
                parse_usize(t.as_str())
            } else {
                None
            }
        },
        None => {
            assert(chars@.subrange(0, chars@.len() as int) =~= chars@);
            None
        },
    }
}

/// The body length a request's header text declares: the value of the first
/// `Content-Length` line that reads as a number, or 0.
#[verifier::rlimit(50)]
#[verifier::spinoff_prover]
pub fn content_length(headers: &str) -> (r: usize)
    ensures
        r == content_length_of(headers@),
{
    let chars = chars_of(headers);
    let n = chars.len();
    let mut pos: usize = 0;
    assert(chars@.subrange(0, n as int) =~= chars@);
    while pos < n
        invariant
            chars@ == headers@,
            n == chars.len(),
            pos <= n,
            first_content_length(text_lines(headers@)) == first_content_length(
                text_lines(chars@.subrange(pos as int, n as int)),
            ),
        decreases n - pos,
    {
        match find_char_from(&chars, pos, '\n') {
            Some(k) => {
                proof {
                    lemma_find_char_facts(chars@.subrange(pos as int, n as int), '\n');
                    lemma_text_lines_step(chars@, pos as int, k as int);
                    lemma_first_content_length_cons(
                        strip_cr(chars@.subrange(pos as int, k as int)),
                        text_lines(chars@.subrange(k + 1, n as int)),
                    );
                }
                let end = if k > pos && chars[k - 1] == '\r' {
                    k - 1
                } else {
                    k
                };
                let line = string_of(&chars, pos, end);
                assert(line@ == strip_cr(chars@.subrange(pos as int, k as int)));
                match header_length(line.as_str()) {
                    Some(v) => {
                        return v;
                    },
                    None => {},
                }
                pos = k + 1;
            },
            None => {
                let line = string_of(&chars, pos, n);
                proof {
                    let t = chars@.subrange(pos as int, n as int);
                    assert(text_lines(t) == seq![t]);
                    lemma_first_content_length_cons(t, seq![]);
                    assert(seq![t] + Seq::<Seq<char>>::empty() =~= seq![t]);
                    assert(first_content_length(Seq::<Seq<char>>::empty()) is None);
                }
                match header_length(line.as_str()) {
                    Some(v) => {
                        return v;
                    },
                    None => {
                        return 0;
                    },
                }
            },
        }
    }
    assert(chars@.subrange(pos as int, n as int) =~= Seq::<char>::empty());
    0
}

/// What `String::from_utf8_lossy` makes of some bytes: the UTF-8 text they
/// encode, with each invalid sequence replaced by U+FFFD.
pub uninterp spec fn utf8_lossy(bytes: Seq<u8>) -> Seq<char>;

/// `String::from_utf8_lossy(bytes).into_owned()`. The contract names the
/// result and states the one fact its documentation gives in a line: valid
/// UTF-8 is decoded unchanged.
#[verifier::external_body]
fn from_utf8_lossy(bytes: &[u8]) -> (r: String)
    ensures
        r@ == utf8_lossy(bytes@),
        valid_utf8(bytes@) ==> r@ == decode_utf8(bytes@),
{
    String::from_utf8_lossy(bytes).into_owned()
}

/// The text of a received request, as the bridge reads it.
pub fn request_text(bytes: &[u8]) -> (r: String)
    ensures
        r@ == utf8_lossy(bytes@),
{
    from_utf8_lossy(bytes)
}

/// `"\r\n\r\n"`, which ends an HTTP header.
pub open spec fn header_terminator() -> Seq<u8> {
    seq![13u8, 10u8, 13u8, 10u8]
}

/// The position of the first `"\r\n\r\n"` in the bytes received.
pub fn find_header_end(bytes: &[u8]) -> (r: Option<usize>)
    ensures
        r matches Some(i) ==> find_seq(bytes@, header_terminator()) == Some(i as int),
        r is None ==> find_seq(bytes@, header_terminator()) is None,
{
    let pat: [u8; 4] = [13u8, 10u8, 13u8, 10u8];
    assert(pat@ =~= header_terminator());
    find_bytes(bytes, pat.as_slice())
}

/// How far a request being received has come.
#[derive(Clone, Copy, Debug, PartialEq, Eq, Structural)]
pub enum RequestProgress {
    /// More bytes are needed: the header has not ended, or the body is short.
    Incomplete,
    /// The header and the body it declares have arrived.
    Complete,
    /// The header end plus the declared body length does not fit in a `usize`.
    TooLong,
}

/// How far the bytes received so far take a request: the header must end,
/// then the body as long as its `Content-Length` line declares.
pub open spec fn request_progress_of(bytes: Seq<u8>) -> RequestProgress {
    match find_seq(bytes, header_terminator()) {
        None => RequestProgress::Incomplete,
        Some(h) => {
            let total = h + 4 + content_length_of(utf8_lossy(bytes.subrange(0, h)));
            if total > usize::MAX {
                RequestProgress::TooLong
            } else if bytes.len() < total {
                RequestProgress::Incomplete
            } else {
                RequestProgress::Complete
            }
        },
    }
}

/// Whether the bytes received so far hold a whole request.
pub fn request_progress(bytes: &[u8]) -> (r: RequestProgress)
    ensures
        r == request_progress_of(bytes@),
{
    match find_header_end(bytes) {
        None => RequestProgress::Incomplete,
        Some(h) => {
            proof {
                lemma_find_seq_facts(bytes@, header_terminator());
            }
            let head = from_utf8_lossy(vstd::slice::slice_subrange(bytes, 0, h));
            let len = content_length(head.as_str());
            if h > usize::MAX - 4 || h + 4 > usize::MAX - len {
                RequestProgress::TooLong
            } else if bytes.len() < h + 4 + len {
                RequestProgress::Incomplete
            } else {
                RequestProgress::Complete
            }
        },
    }
}


/// The first line of a text, if it has one.
pub open spec fn first_line(s: Seq<char>) -> Option<Seq<char>> {
    if text_lines(s).len() > 0 {
        Some(text_lines(s)[0])
    } else {
        None
    }
}

/// The first two white-space separated words of a line, as
/// `split_whitespace` yields them, when it has two.
pub open spec fn two_words(line: Seq<char>) -> Option<(Seq<char>, Seq<char>)> {
    let t1 = trim_start(line);
    let n1 = word_len(t1) as int;
    let t2 = trim_start(t1.subrange(n1, t1.len() as int));
    let n2 = word_len(t2) as int;
    if t1.len() > 0 && t2.len() > 0 {
        Some((t1.subrange(0, n1), t2.subrange(0, n2)))
    } else {
        None
    }
}

/// The method and the target of a request: the first two words of its
/// first line.
pub open spec fn request_line_of(request: Seq<char>) -> Option<(Seq<char>, Seq<char>)> {
    match first_line(request) {
        Some(line) => two_words(line),
        None => None,
    }
}

/// The end of the first line of `chars`, its `\r` excluded.
fn first_line_end(chars: &Vec<char>) -> (r: usize)
    requires
        chars.len() > 0,
    ensures
        r <= chars.len(),
        first_line(chars@) == Some(chars@.subrange(0, r as int)),
{
    let n = chars.len();
    assert(chars@.subrange(0, n as int) =~= chars@);
    match find_char_from(chars, 0, '\n') {
        Some(k) => {
            proof {
                lemma_find_char_facts(chars@, '\n');
                lemma_text_lines_step(chars@, 0, k as int);
                assert(chars@.subrange(0, n as int) =~= chars@);
            }
            if k > 0 && chars[k - 1] == '\r' {
                assert(chars@.subrange(0, k as int).drop_last() =~= chars@.subrange(0, k - 1));
                k - 1
            } else {
                k
            }
        },
        None => n,
    }
}

/// The first position at or after `from` whose character is not white space.
fn skip_white(chars: &Vec<char>, from: usize) -> (r: usize)
    requires
        from <= chars.len(),
    ensures
        from <= r <= chars.len(),
        trim_start(chars@.subrange(from as int, chars@.len() as int)) == chars@.subrange(
            r as int,
            chars@.len() as int,
        ),
{
    let n = chars.len();
    let ghost t = chars@.subrange(from as int, n as int);
    let mut i: usize = from;
    while i < n && is_white_space_char(chars[i])
        invariant
            from <= i <= n == chars.len(),
            t == chars@.subrange(from as int, n as int),
            all_white(t.subrange(0, i - from)),
        decreases n - i,
    {
        assert forall|k: int| 0 <= k < i + 1 - from implies #[trigger] is_white_space(
            t.subrange(0, i + 1 - from)[k],
        ) by {
            if k < i - from {
                assert(t.subrange(0, i + 1 - from)[k] == t.subrange(0, i - from)[k]);
            }
        }
        i = i + 1;
    }
    proof {
        lemma_trim_start_skip(t, i - from);
        assert(t.subrange(i - from, t.len() as int) =~= chars@.subrange(i as int, n as int));
    }
    i
}

/// The first position at or after `from` whose character is white space.
fn skip_word(chars: &Vec<char>, from: usize) -> (r: usize)
    requires
        from <= chars.len(),
    ensures
        from <= r <= chars.len(),
        word_len(chars@.subrange(from as int, chars@.len() as int)) == r - from,
{
    let n = chars.len();
    let ghost t = chars@.subrange(from as int, n as int);
    let mut i: usize = from;
    while i < n && !is_white_space_char(chars[i])
        invariant
            from <= i <= n == chars.len(),
            t == chars@.subrange(from as int, n as int),
            forall|k: int| 0 <= k < i - from ==> !is_white_space(#[trigger] t[k]),
        decreases n - i,
    {
        i = i + 1;
    }
    proof {
        lemma_word_len_skip(t, i - from);
        let u = t.subrange(i - from, t.len() as int);
        if u.len() > 0 {
            assert(u[0] == chars@[i as int]);
        }
    }
    i
}

/// The method and the target of a request: the first two words of its first
/// line, when it has two.
pub fn request_line(request: &str) -> (r: Option<(String, String)>)
    ensures
        r is None <==> request_line_of(request@) is None,
        r matches Some((m, t)) ==> request_line_of(request@) == Some((m@, t@)),
{
    let all = chars_of(request);
    if all.len() == 0 {
        return None;
    }
    let end = first_line_end(&all);
    let line = string_of(&all, 0, end);
    let chars = chars_of(line.as_str());
    let n = chars.len();
    let a = skip_white(&chars, 0);
    let b = skip_word(&chars, a);
    let c = skip_white(&chars, b);
    let d = skip_word(&chars, c);
    proof {
        let l = chars@;
        assert(l.subrange(0, n as int) =~= l);
        let t1 = trim_start(l);
        assert(t1 == l.subrange(a as int, n as int));
        assert(t1.subrange(b - a, t1.len() as int) =~= l.subrange(b as int, n as int));
        assert(t1.subrange(0, b - a) =~= l.subrange(a as int, b as int));
        let t2 = trim_start(t1.subrange(b - a, t1.len() as int));
        assert(t2 == l.subrange(c as int, n as int));
        assert(t2.subrange(0, d - c) =~= l.subrange(c as int, d as int));
    }
    if a == n || c == n {
        return None;
    }
    let method = string_of(&chars, a, b);
    let target = string_of(&chars, c, d);
    Some((method, target))
}

/// A request target split at its first `?` into path and query.
pub open spec fn split_target_of(target: Seq<char>) -> (Seq<char>, Seq<char>) {
    match find_char(target, '?') {
        Some(k) => (target.subrange(0, k), target.subrange(k + 1, target.len() as int)),
        None => (target, seq![]),
    }
}

/// The path and the query of a request target: split at the first `?`,
/// with an empty query where there is none.
pub fn split_target(target: &str) -> (r: (String, String))
    ensures
        (r.0@, r.1@) == split_target_of(target@),
        target@.contains('?') ==> target@ == r.0@ + seq!['?'] + r.1@ && !r.0@.contains('?'),
        !target@.contains('?') ==> r.0@ == target@ && r.1@.len() == 0,
{
    let chars = chars_of(target);
    let n = chars.len();
    assert(chars@.subrange(0, n as int) =~= chars@);
    proof {
        lemma_find_char_facts(target@, '?');
    }
    match find_char_from(&chars, 0, '?') {
        Some(k) => {
            let path = string_of(&chars, 0, k);
            let query = string_of(&chars, k + 1, n);
            assert(target@ =~= path@ + seq!['?'] + query@);
            assert(!path@.contains('?')) by {
                if path@.contains('?') {
                    let j = choose|j: int| 0 <= j < path@.len() && path@[j] == '?';
                    assert(target@[j] == '?');
                }
            }
            (path, query)
        },
        None => {
            assert(!target@.contains('?')) by {
                if target@.contains('?') {
                    let j = choose|j: int| 0 <= j < target@.len() && target@[j] == '?';
                    assert(target@[j] != '?');
                }
            }
            (string_of(&chars, 0, n), String::new())
        },
    }
}

/// `"\r\n\r\n"` as characters.
pub open spec fn blank_line() -> Seq<char> {
    seq!['\r', '\n', '\r', '\n']
}

/// The body of a request text: what follows its first `"\r\n\r\n"`, or
/// nothing where there is none.
pub open spec fn request_body_of(request: Seq<char>) -> Seq<char> {
    match find_seq(request, blank_line()) {
        Some(k) => request.subrange(k + 4, request.len() as int),
        None => seq![],
    }
}

/// The body of a request text.
pub fn request_body(request: &str) -> (r: String)
    ensures
        r@ == request_body_of(request@),
{
    let chars = chars_of(request);
    let mut pat: Vec<char> = Vec::new();
    pat.push('\r');
    pat.push('\n');
    pat.push('\r');
    pat.push('\n');
    assert(pat@ =~= blank_line());
    match find_chars(&chars, &pat) {
        Some(k) => {
            proof {
                lemma_find_seq_facts(chars@, pat@);
                assert(occurs_at(chars@, pat@, k as int));
                assert(pat@.len() == 4);
                assert(k + 4 <= chars@.len());
            }
            let n = chars.len();
            assert(k + 4 <= n);
            string_of(&chars, k + 4, n)
        },
        None => String::new(),
    }
}

/// A request as the bridge reads it.
#[derive(Clone, Debug)]
pub struct Request {
    pub method: String,
    pub path: String,
    pub query: String,
    pub body: String,
}

/// The parts of a request text: method, path, query and body. A request
/// without a request line has an empty method and target.
pub open spec fn request_parts(request: Seq<char>) -> (Seq<char>, Seq<char>, Seq<char>, Seq<char>) {
    let (method, target) = match request_line_of(request) {
        Some((m, t)) => (m, t),
        None => (seq![], seq![]),
    };
    let (path, query) = split_target_of(target);
    (method, path, query, request_body_of(request))
}

/// Reads a request text into its parts.
pub fn parse_request(request: &str) -> (r: Request)
    ensures
        (r.method@, r.path@, r.query@, r.body@) == request_parts(request@),
{
    let (method, target) = match request_line(request) {
        Some((m, t)) => (m, t),
        None => (String::new(), String::new()),
    };
    let (path, query) = split_target(target.as_str());
    let body = request_body(request);
    Request { method, path, query, body }
}


/// The endpoint a request asks for.
#[derive(Clone, Copy, Debug, PartialEq, Eq, Structural)]
pub enum Route {
    /// A CORS preflight request, answered with an empty 204.
    Options,
    Status,
    Settings,
    Connect,
    AddProject,
    LocalAddProject,
    DeleteProject,
    SyncProject,
    LocalFolderIndex,
    SaveProject,
    ColorsGet,
    ColorsPost,
    OpenFile,
    StartupSync,
    UploadProject,
    Summary,
    FolderIndex,
    /// Anything else, answered with 404.
    NotFound,
}

/// The endpoint of a method and a path: every `OPTIONS` request is a
/// preflight, the endpoints match method and path exactly.
pub open spec fn route_of(method: Seq<char>, path: Seq<char>) -> Route {
    if method == "OPTIONS"@ {
        Route::Options
    } else if method == "GET"@ && path == "/status"@ {
        Route::Status
    } else if method == "GET"@ && path == "/settings"@ {
        Route::Settings
    } else if method == "POST"@ && path == "/connect"@ {
        Route::Connect
    } else if method == "POST"@ && path == "/add-project"@ {
        Route::AddProject
    } else if method == "POST"@ && path == "/local-add-project"@ {
        Route::LocalAddProject
    } else if method == "POST"@ && path == "/delete-project"@ {
        Route::DeleteProject
    } else if method == "POST"@ && path == "/sync-project"@ {
        Route::SyncProject
    } else if method == "GET"@ && path == "/local-folder-index"@ {
        Route::LocalFolderIndex
    } else if method == "POST"@ && path == "/save-project"@ {
        Route::SaveProject
    } else if method == "GET"@ && path == "/colors"@ {
        Route::ColorsGet
    } else if method == "POST"@ && path == "/colors"@ {
        Route::ColorsPost
    } else if method == "POST"@ && path == "/open-file"@ {
        Route::OpenFile
    } else if method == "GET"@ && path == "/startup-sync"@ {
        Route::StartupSync
    } else if method == "POST"@ && path == "/upload-project"@ {
        Route::UploadProject
    } else if method == "GET"@ && path == "/summary"@ {
        Route::Summary
    } else if method == "GET"@ && path == "/folder-index"@ {
        Route::FolderIndex
    } else {
        Route::NotFound
    }
}

/// The endpoint a request asks for.
pub fn route(method: &str, path: &str) -> (r: Route)
    ensures
        r == route_of(method@, path@),
{
    let is_get = text_eq(method, "GET");
    let is_post = text_eq(method, "POST");
    proof {
        reveal_strlit("GET");
        reveal_strlit("POST");
        reveal_strlit("OPTIONS");
    }
    if text_eq(method, "OPTIONS") {
        Route::Options
    } else if is_get && text_eq(path, "/status") {
        Route::Status
    } else if is_get && text_eq(path, "/settings") {
        Route::Settings
    } else if is_post && text_eq(path, "/connect") {
        Route::Connect
    } else if is_post && text_eq(path, "/add-project") {
        Route::AddProject
    } else if is_post && text_eq(path, "/local-add-project") {
        Route::LocalAddProject
    } else if is_post && text_eq(path, "/delete-project") {
        Route::DeleteProject
    } else if is_post && text_eq(path, "/sync-project") {
        Route::SyncProject
    } else if is_get && text_eq(path, "/local-folder-index") {
        Route::LocalFolderIndex
    } else if is_post && text_eq(path, "/save-project") {
        Route::SaveProject
    } else if is_get && text_eq(path, "/colors") {
        Route::ColorsGet
    } else if is_post && text_eq(path, "/colors") {
        Route::ColorsPost
    } else if is_post && text_eq(path, "/open-file") {
        Route::OpenFile
    } else if is_get && text_eq(path, "/startup-sync") {
        Route::StartupSync
    } else if is_post && text_eq(path, "/upload-project") {
        Route::UploadProject
    } else if is_get && text_eq(path, "/summary") {
        Route::Summary
    } else if is_get && text_eq(path, "/folder-index") {
        Route::FolderIndex
    } else {
        Route::NotFound
    }
}

/// The reason phrase of a status code.
pub open spec fn status_text_of(status: u16) -> Seq<char> {
    if status == 200 {
        "OK"@
    } else if status == 204 {
        "No Content"@
    } else if status == 400 {
        "Bad Request"@
    } else if status == 403 {
        "Forbidden"@
    } else if status == 404 {
        "Not Found"@
    } else if status == 500 {
        "Internal Server Error"@
    } else {
        "OK"@
    }
}

/// The reason phrase the bridge writes for a status code.
pub fn status_text(status: u16) -> (r: &'static str)
    ensures
        r@ == status_text_of(status),
{
    if status == 200 {
        "OK"
    } else if status == 204 {
        "No Content"
    } else if status == 400 {
        "Bad Request"
    } else if status == 403 {
        "Forbidden"
    } else if status == 404 {
        "Not Found"
    } else if status == 500 {
        "Internal Server Error"
    } else {
        "OK"
    }
}

/// The header of a response, up to the blank line.
pub open spec fn response_head(status: u16, content_type: Seq<char>, body_len: nat) -> Seq<char> {
    status_line(status) + crlf() + "Content-Type: "@ + content_type + crlf() + "Content-Length: "@
        + decimal(body_len) + crlf() + cors_lines()
}

/// A whole response: its header, a blank line, and the body, whose length
/// in UTF-8 bytes the header declares.
pub open spec fn response_text(status: u16, content_type: Seq<char>, body: Seq<char>) -> Seq<char> {
    response_head(status, content_type, encode_utf8(body).len()) + "\r\n\r\n"@ + body
}

/// The text of a response with a status, a content type and a body; the
/// connection is closed after it and any origin may read it.
pub fn http_response(status: u16, content_type: &str, body: &str) -> (r: String)
    ensures
        r@ == response_text(status, content_type@, body@),
{
    let len = body.as_bytes().len();
    let code = decimal_text(status as u64);
    let r = String::from_str("HTTP/1.1 ");
    let r = r.concat(code.as_str());
    let r = r.concat(" ");
    let r = r.concat(status_text(status));
    let r = r.concat("\r\n");
    let r = r.concat("Content-Type: ");
    let r = r.concat(content_type);
    let r = r.concat("\r\n");
    let r = r.concat("Content-Length: ");
    let size = decimal_text(len as u64);
    let r = r.concat(size.as_str());
    let r = r.concat("\r\n");
    let r = r.concat("Access-Control-Allow-Origin: *");
    let r = r.concat("\r\n");
    let r = r.concat("Access-Control-Allow-Methods: GET, POST, OPTIONS");
    let r = r.concat("\r\n");
    let r = r.concat("Access-Control-Allow-Headers: Content-Type");
    let r = r.concat("\r\n");
    let r = r.concat("Connection: close");
    let r = r.concat("\r\n\r\n");
    let r = r.concat(body);
    r
}

/// A JSON response.
pub fn json_response(status: u16, body: &str) -> (r: String)
    ensures
        r@ == response_text(status, "application/json; charset=utf-8"@, body@),
{
    http_response(status, "application/json; charset=utf-8", body)
}

/// A plain text response.
pub fn text_response(status: u16, body: &str) -> (r: String)
    ensures
        r@ == response_text(status, "text/plain; charset=utf-8"@, body@),
{
    http_response(status, "text/plain; charset=utf-8", body)
}

/// The name/value pairs of a form-urlencoded text as the `form_urlencoded`
/// crate decodes them, in order.
pub uninterp spec fn form_pairs_of(query: Seq<char>) -> Seq<(Seq<char>, Seq<char>)>;

/// `form_urlencoded::parse(query.as_bytes())`, each pair made owned. The
/// contract names the result as a function of the text.
#[verifier::external_body]
fn form_pairs(query: &str) -> (r: Vec<(String, String)>)
    ensures
        pair_views(r@) == form_pairs_of(query@),
{
    url::form_urlencoded::parse(query.as_bytes()).map(|(k, v)| (k.into_owned(), v.into_owned())).collect()
}

/// The value of a query parameter: that of the first pair with the name,
/// decoded.
pub fn query_param(query: &str, key: &str) -> (r: Option<String>)
    ensures
        r is None <==> first_value(form_pairs_of(query@), key@) is None,
        r matches Some(v) ==> first_value(form_pairs_of(query@), key@) == Some(v@),
{
    let pairs = form_pairs(query);
    find_value(&pairs, key)
}

/// Splitting off a first line that ends in a line feed.
proof fn lemma_lines_cons(a: Seq<char>, b: Seq<char>)
    requires
        forall|i: int| 0 <= i < a.len() ==> a[i] != '\n',
    ensures
        text_lines(a + seq!['\n'] + b) == seq![strip_cr(a)] + text_lines(b),
{
    let s = a + seq!['\n'] + b;
    assert(s[a.len() as int] == '\n');
    assert forall|j: int| 0 <= j < a.len() implies s[j] != '\n' by {
        assert(s[j] == a[j]);
    }
    lemma_find_char_found(s, '\n', a.len() as int);
    assert(s.subrange(0, a.len() as int) =~= a);
    assert(s.subrange(a.len() as int + 1, s.len() as int) =~= b);
}

/// A line that ends in a carriage return loses it and nothing else.
proof fn lemma_strip_cr(a: Seq<char>)
    ensures
        strip_cr(a + seq!['\r']) == a,
{
    assert((a + seq!['\r']).drop_last() =~= a);
}

/// The decimal text of a number, after one space, trims to itself.
proof fn lemma_trim_spaced_decimal(n: nat)
    ensures
        trimmed(seq![' '] + decimal(n)) == decimal(n),
{
    let d = decimal(n);
    let s = seq![' '] + d;
    crate::numeric::lemma_decimal_digits(n);
    assert(s.subrange(0, 1) =~= seq![' ']);
    assert(all_white(s.subrange(0, 1)));
    lemma_trim_start_skip(s, 1);
    assert(s.subrange(1, s.len() as int) =~= d);
    assert(crate::numeric::is_digit(d[0]));
    assert(crate::numeric::is_digit(d.last()));
}

/// `"\r\n"`, which ends each line of a header.
pub open spec fn crlf() -> Seq<char> {
    "\r\n"@
}

/// The first line of a response: version, status code, reason phrase.
pub open spec fn status_line(status: u16) -> Seq<char> {
    "HTTP/1.1 "@ + decimal(status as nat) + " "@ + status_text_of(status)
}

/// The header lines every response ends with: any origin may read it, the
/// methods and header the bridge accepts, and the connection closes.
pub open spec fn cors_lines() -> Seq<char> {
    origin_line() + crlf() + methods_line() + crlf() + allowed_headers_line() + crlf()
        + connection_line()
}

pub open spec fn origin_line() -> Seq<char> {
    "Access-Control-Allow-Origin: *"@
}

pub open spec fn methods_line() -> Seq<char> {
    "Access-Control-Allow-Methods: GET, POST, OPTIONS"@
}

pub open spec fn allowed_headers_line() -> Seq<char> {
    "Access-Control-Allow-Headers: Content-Type"@
}

pub open spec fn connection_line() -> Seq<char> {
    "Connection: close"@
}

proof fn lemma_status_line(status: u16)
    ensures
        forall|i: int| 0 <= i < status_line(status).len() ==> status_line(status)[i] != '\n',
        header_content_length(status_line(status)) is None,
{
    reveal_strlit("HTTP/1.1 ");
    reveal_strlit(" ");
    reveal_strlit("content-length");
    reveal_strlit("OK");
    reveal_strlit("No Content");
    reveal_strlit("Bad Request");
    reveal_strlit("Forbidden");
    reveal_strlit("Not Found");
    reveal_strlit("Internal Server Error");
    let code = decimal(status as nat);
    let l1 = status_line(status);
    crate::numeric::lemma_decimal_digits(status as nat);
    assert forall|i: int| 0 <= i < l1.len() implies l1[i] != '\n' by {
        if i >= 10 + code.len() {
            assert(l1[i] == status_text_of(status)[i - 10 - code.len()]);
        } else if 9 <= i < 9 + code.len() {
            assert(l1[i] == code[i - 9]);
            assert(crate::numeric::is_digit(code[i - 9]));
        }
    }
    assert(l1[0] == 'H');
    lemma_find_char_facts(l1, ':');
    if let Some(k) = find_char(l1, ':') {
        if k == 14 {
            assert(l1.subrange(0, k)[0] == 'H');
            assert(!eq_ignore_ascii_case(l1.subrange(0, k), "content-length"@));
        }
    }
}

proof fn lemma_type_line(content_type: Seq<char>)
    requires
        forall|i: int| 0 <= i < content_type.len() ==> content_type[i] != '\n',
    ensures
        forall|i: int|
            0 <= i < ("Content-Type: "@ + content_type).len() ==> ("Content-Type: "@
                + content_type)[i] != '\n',
        header_content_length("Content-Type: "@ + content_type) is None,
{
    reveal_strlit("Content-Type: ");
    reveal_strlit("content-length");
    let l2 = "Content-Type: "@ + content_type;
    assert forall|i: int| 0 <= i < l2.len() implies l2[i] != '\n' by {
        if 14 <= i {
            assert(l2[i] == content_type[i - 14]);
        }
    }
    lemma_find_char_facts(l2, ':');
    assert(l2[12] == ':');
    if let Some(k) = find_char(l2, ':') {
        assert(k <= 12);
        assert(l2.subrange(0, k).len() != "content-length"@.len());
    }
}

proof fn lemma_length_line(n: usize)
    ensures
        forall|i: int|
            0 <= i < ("Content-Length: "@ + decimal(n as nat)).len() ==> ("Content-Length: "@
                + decimal(n as nat))[i] != '\n',
        header_content_length("Content-Length: "@ + decimal(n as nat)) == Some(n),
{
    reveal_strlit("Content-Length: ");
    reveal_strlit("content-length");
    let len = decimal(n as nat);
    let l3 = "Content-Length: "@ + len;
    crate::numeric::lemma_decimal_digits(n as nat);
    assert forall|i: int| 0 <= i < l3.len() implies l3[i] != '\n' by {
        if 16 <= i {
            assert(l3[i] == len[i - 16]);
            assert(crate::numeric::is_digit(len[i - 16]));
        }
    }
    assert forall|j: int| 0 <= j < 14 implies l3[j] != ':' by {}
    lemma_find_char_found(l3, ':', 14);
    let name = l3.subrange(0, 14);
    assert forall|i: int| 0 <= i < name.len() implies (#[trigger] name[i] == "content-length"@[i]
        || ('A' <= name[i] && name[i] <= 'Z' && name[i] as u32 + 32 == "content-length"@[i] as u32)) by {}
    assert(eq_ignore_ascii_case(name, "content-length"@));
    assert(l3.subrange(15, l3.len() as int) =~= seq![' '] + len);
    lemma_trim_spaced_decimal(n as nat);
    crate::numeric::decimal_parses_back(n);
}

/// The length a response's header declares is read back, by the same rule
/// the bridge reads requests with, as the length the body has: what the
/// bridge writes it can read. The content type must be one line.
#[verifier::spinoff_prover]
pub proof fn declared_length_reads_back(status: u16, content_type: Seq<char>, n: usize)
    requires
        forall|i: int| 0 <= i < content_type.len() ==> content_type[i] != '\n',
    ensures
        content_length_of(response_head(status, content_type, n as nat)) == n,
{
    reveal_strlit("\r\n");
    let l1 = status_line(status);
    let l2 = "Content-Type: "@ + content_type;
    let l3 = "Content-Length: "@ + decimal(n as nat);
    let rest = cors_lines();
    let cr = seq!['\r'];
    let nl = seq!['\n'];
    let tail3 = (l3 + cr) + nl + rest;
    let tail2 = (l2 + cr) + nl + tail3;
    let head = (l1 + cr) + nl + tail2;
    assert(crlf() =~= cr + nl);
    assert(response_head(status, content_type, n as nat) =~= head);
    lemma_status_line(status);
    lemma_type_line(content_type);
    lemma_length_line(n);
    assert forall|i: int| 0 <= i < (l1 + cr).len() implies (l1 + cr)[i] != '\n' by {
        if i < l1.len() {
            assert((l1 + cr)[i] == l1[i]);
        }
    }
    assert forall|i: int| 0 <= i < (l2 + cr).len() implies (l2 + cr)[i] != '\n' by {
        if i < l2.len() {
            assert((l2 + cr)[i] == l2[i]);
        }
    }
    assert forall|i: int| 0 <= i < (l3 + cr).len() implies (l3 + cr)[i] != '\n' by {
        if i < l3.len() {
            assert((l3 + cr)[i] == l3[i]);
        }
    }
    lemma_lines_cons(l1 + cr, tail2);
    lemma_lines_cons(l2 + cr, tail3);
    lemma_lines_cons(l3 + cr, rest);
    lemma_strip_cr(l1);
    lemma_strip_cr(l2);
    lemma_strip_cr(l3);
    lemma_first_content_length_cons(l1, text_lines(tail2));
    lemma_first_content_length_cons(l2, text_lines(tail3));
    lemma_first_content_length_cons(l3, text_lines(rest));
}

/// A request that has fully arrived stays so as more bytes follow it: its
/// header ends at the same place and declares the same length. The reader
/// can stop at the first complete prefix.
#[verifier::spinoff_prover]
pub proof fn complete_stays_complete(bytes: Seq<u8>, more: Seq<u8>)
    requires
        request_progress_of(bytes) == RequestProgress::Complete,
    ensures
        request_progress_of(bytes + more) == RequestProgress::Complete,
{
    let all = bytes + more;
    let pat = header_terminator();
    crate::search::lemma_find_seq_extend(bytes, more, pat);
    crate::search::lemma_find_seq_facts(bytes, pat);
    let h = find_seq(bytes, pat)->0;
    assert(all.subrange(0, h) =~= bytes.subrange(0, h));
    let n = content_length_of(utf8_lossy(bytes.subrange(0, h)));
    assert(content_length_of(utf8_lossy(all.subrange(0, h))) == n);
    assert(h + 4 + n <= bytes.len());
    assert(all.len() >= bytes.len());
}

/// A line of a header: not empty, with no carriage return or line feed.
pub open spec fn is_header_line(s: Seq<char>) -> bool {
    s.len() > 0 && forall|i: int| 0 <= i < s.len() ==> s[i] != '\r' && s[i] != '\n'
}

/// `pat` occurs at `k` and nowhere before.
pub open spec fn first_at<T>(s: Seq<T>, pat: Seq<T>, k: int) -> bool {
    occurs_at(s, pat, k) && forall|j: int| 0 <= j < k ==> !#[trigger] occurs_at(s, pat, j)
}

/// Before a header line and its line break, no blank line starts; the first
/// one is where it was in what follows.
#[verifier::spinoff_prover]
proof fn lemma_blank_after_line(l: Seq<char>, t: Seq<char>, m: int)
    requires
        is_header_line(l),
        t.len() > 0,
        t[0] != '\r',
        first_at(t, blank_line(), m),
    ensures
        first_at(l + seq!['\r', '\n'] + t, blank_line(), l.len() + 2 + m),
{
    let pat = blank_line();
    let s = l + seq!['\r', '\n'] + t;
    let k = l.len() + 2;
    assert(s.subrange(k + m, k + m + 4) =~= t.subrange(m, m + 4));
    assert forall|j: int| 0 <= j < k + m implies !#[trigger] occurs_at(s, pat, j) by {
        if occurs_at(s, pat, j) {
            let w = s.subrange(j, j + 4);
            assert(w[0] == s[j] && w[1] == s[j + 1] && w[2] == s[j + 2]);
            if j < l.len() {
                assert(s[j] == l[j]);
            } else if j == l.len() {
                assert(s[j + 2] == t[0]);
            } else if j == l.len() + 1 {
                assert(s[j] == '\n');
            } else {
                assert(w =~= t.subrange(j - k, j - k + 4));
                assert(occurs_at(t, pat, j - k));
            }
        }
    }
}

/// After the last header line comes the blank line.
proof fn lemma_blank_at_end(l: Seq<char>, body: Seq<char>)
    requires
        is_header_line(l),
    ensures
        first_at(l + seq!['\r', '\n', '\r', '\n'] + body, blank_line(), l.len() as int),
{
    let pat = blank_line();
    let s = l + seq!['\r', '\n', '\r', '\n'] + body;
    assert(s.subrange(l.len() as int, l.len() as int + 4) =~= pat);
    assert forall|j: int| 0 <= j < l.len() implies !#[trigger] occurs_at(s, pat, j) by {
        if occurs_at(s, pat, j) {
            assert(s.subrange(j, j + 4)[0] == s[j]);
            assert(s[j] == l[j]);
        }
    }
}

proof fn lemma_fixed_lines()
    ensures
        is_header_line(origin_line()),
        is_header_line(methods_line()),
        is_header_line(allowed_headers_line()),
        is_header_line(connection_line()),
{
    reveal_strlit("Access-Control-Allow-Origin: *");
    reveal_strlit("Access-Control-Allow-Methods: GET, POST, OPTIONS");
    reveal_strlit("Access-Control-Allow-Headers: Content-Type");
    reveal_strlit("Connection: close");
}

proof fn lemma_variable_lines(status: u16, content_type: Seq<char>, n: nat)
    requires
        forall|i: int| 0 <= i < content_type.len() ==> content_type[i] != '\r' && content_type[i] != '\n',
    ensures
        is_header_line(status_line(status)),
        is_header_line("Content-Type: "@ + content_type),
        is_header_line("Content-Length: "@ + decimal(n)),
{
    reveal_strlit("HTTP/1.1 ");
    reveal_strlit(" ");
    reveal_strlit("OK");
    reveal_strlit("No Content");
    reveal_strlit("Bad Request");
    reveal_strlit("Forbidden");
    reveal_strlit("Not Found");
    reveal_strlit("Internal Server Error");
    reveal_strlit("Content-Type: ");
    reveal_strlit("Content-Length: ");
    let code = decimal(status as nat);
    let len = decimal(n);
    crate::numeric::lemma_decimal_digits(status as nat);
    crate::numeric::lemma_decimal_digits(n);
    let l1 = status_line(status);
    assert forall|i: int| 0 <= i < l1.len() implies l1[i] != '\r' && l1[i] != '\n' by {
        if i >= 10 + code.len() {
            assert(l1[i] == status_text_of(status)[i - 10 - code.len()]);
        } else if 9 <= i < 9 + code.len() {
            assert(l1[i] == code[i - 9]);
            assert(crate::numeric::is_digit(code[i - 9]));
        }
    }
    let l2 = "Content-Type: "@ + content_type;
    assert forall|i: int| 0 <= i < l2.len() implies l2[i] != '\r' && l2[i] != '\n' by {
        if 14 <= i {
            assert(l2[i] == content_type[i - 14]);
        }
    }
    let l3 = "Content-Length: "@ + len;
    assert forall|i: int| 0 <= i < l3.len() implies l3[i] != '\r' && l3[i] != '\n' by {
        if 16 <= i {
            assert(l3[i] == len[i - 16]);
            assert(crate::numeric::is_digit(len[i - 16]));
        }
    }
}

/// A response is its header lines, each followed by a line break, then one
/// more line break and the body.
#[verifier::spinoff_prover]
proof fn lemma_response_lines(status: u16, content_type: Seq<char>, body: Seq<char>)
    ensures
        ({
            let n = encode_utf8(body).len();
            let br = seq!['\r', '\n'];
            response_text(status, content_type, body) == status_line(status) + br + (
            "Content-Type: "@ + content_type + br + ("Content-Length: "@ + decimal(n) + br + (
            origin_line() + br + (methods_line() + br + (allowed_headers_line() + br + (
            connection_line() + seq!['\r', '\n', '\r', '\n'] + body))))))
        }),
{
    reveal_strlit("\r\n");
    reveal_strlit("\r\n\r\n");
    let n = encode_utf8(body).len();
    let br = seq!['\r', '\n'];
    assert(crlf() =~= br);
    assert("\r\n\r\n"@ =~= seq!['\r', '\n', '\r', '\n']);
    assert(response_text(status, content_type, body) =~= status_line(status) + br + (
    "Content-Type: "@ + content_type + br + ("Content-Length: "@ + decimal(n) + br + (
    origin_line() + br + (methods_line() + br + (allowed_headers_line() + br + (
    connection_line() + seq!['\r', '\n', '\r', '\n'] + body)))))));
}

/// The fixed lines at the end of a header, then the blank line and the
/// body: the blank line is the first one.
#[verifier::spinoff_prover]
proof fn lemma_fixed_tail(body: Seq<char>)
    ensures
        ({
            let br = seq!['\r', '\n'];
            let t4 = origin_line() + br + (methods_line() + br + (allowed_headers_line() + br + (
            connection_line() + seq!['\r', '\n', '\r', '\n'] + body)));
            &&& t4.len() > 0
            &&& t4[0] != '\r'
            &&& first_at(
                t4,
                blank_line(),
                (origin_line().len() + 2 + methods_line().len() + 2 + allowed_headers_line().len()
                    + 2 + connection_line().len()) as int,
            )
        }),
{
    let br = seq!['\r', '\n'];
    let l4 = origin_line();
    let l5 = methods_line();
    let l6 = allowed_headers_line();
    let l7 = connection_line();
    lemma_fixed_lines();
    let t7 = l7 + seq!['\r', '\n', '\r', '\n'] + body;
    let t6 = l6 + br + t7;
    let t5 = l5 + br + t6;
    let t4 = l4 + br + t5;
    lemma_blank_at_end(l7, body);
    assert(t7[0] == l7[0]);
    lemma_blank_after_line(l6, t7, l7.len() as int);
    assert(t6[0] == l6[0]);
    lemma_blank_after_line(l5, t6, (l6.len() + 2 + l7.len()) as int);
    assert(t5[0] == l5[0]);
    lemma_blank_after_line(l4, t5, (l5.len() + 2 + l6.len() + 2 + l7.len()) as int);
    assert(t4[0] == l4[0]);
}

/// The body of a response is found again after the first blank line, by
/// the same rule the bridge reads requests with: the header the bridge
/// writes never holds a blank line of its own. The content type must be one
/// line.
#[verifier::spinoff_prover]
pub proof fn body_reads_back(status: u16, content_type: Seq<char>, body: Seq<char>)
    requires
        forall|i: int| 0 <= i < content_type.len() ==> content_type[i] != '\r' && content_type[i] != '\n',
    ensures
        request_body_of(response_text(status, content_type, body)) == body,
{
    let n = encode_utf8(body).len();
    let br = seq!['\r', '\n'];
    let l1 = status_line(status);
    let l2 = "Content-Type: "@ + content_type;
    let l3 = "Content-Length: "@ + decimal(n);
    lemma_variable_lines(status, content_type, n);
    let t4 = origin_line() + br + (methods_line() + br + (allowed_headers_line() + br + (
    connection_line() + seq!['\r', '\n', '\r', '\n'] + body)));
    let m4 = (origin_line().len() + 2 + methods_line().len() + 2 + allowed_headers_line().len() + 2
        + connection_line().len()) as int;
    lemma_fixed_tail(body);
    let t3 = l3 + br + t4;
    let t2 = l2 + br + t3;
    let t1 = l1 + br + t2;
    lemma_response_lines(status, content_type, body);
    assert(response_text(status, content_type, body) == t1);
    lemma_blank_after_line(l3, t4, m4);
    let m3 = l3.len() + 2 + m4;
    assert(t3[0] == l3[0]);
    lemma_blank_after_line(l2, t3, m3);
    let m2 = l2.len() + 2 + m3;
    assert(t2[0] == l2[0]);
    lemma_blank_after_line(l1, t2, m2);
    let m1 = l1.len() + 2 + m2;
    crate::search::lemma_find_seq_found(t1, blank_line(), m1);
    assert(t1.subrange(m1 + 4, t1.len() as int) =~= body);
}

} // verus!
