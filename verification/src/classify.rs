//! The protocol classifier: a pure function of (direction, protocol, chunk)
//! to a log record.  It never alters or drops the chunk it looks at,
//! whatever the classification outcome; the relay forwards the bytes
//! unchanged.  Framing is stateless per chunk: a message split across reads
//! is not reassembled.

use crate::protocol::Protocol;
use crate::strutil::{
    chars_string, chars_start_with, digit_char, find_seq, push_char, spec_dec, spec_split_lines,
    spec_starts_with, split_lines, str_chars, u64_dec,
};
use vstd::string::StringExecFns;
use vstd::prelude::*;
use vstd::slice::slice_subrange;

verus! {

/// Which way a chunk was travelling: from the local client into the tunnel,
/// or back out of it.
#[derive(Debug, Clone, Copy, PartialEq, Eq, Structural)]
pub enum Direction {
    Request,
    Response,
}

/// How many leading bytes of a chunk the plain TCP rendering previews.
pub const TCP_PREVIEW: usize = 100;

/// How many leading bytes an unknown database message previews.
pub const PG_PREVIEW: usize = 50;

/// How many bytes of a chunk a preview of width `cap` shows.
pub open spec fn spec_preview_len(cap: nat, n: nat) -> nat {
    if n < cap {
        n
    } else {
        cap
    }
}

/// The lowercase hexadecimal digit for `d`.
pub open spec fn hex_digit_char(d: nat) -> char
    recommends
        d < 16,
{
    if d < 10 {
        digit_char(d)
    } else {
        ((87 + d) as u8) as char
    }
}

/// The lowercase hexadecimal rendering of `s`, two digits per byte, high
/// nibble first.
pub open spec fn spec_hex_encode(s: Seq<u8>) -> Seq<char>
    decreases s.len(),
{
    if s.len() == 0 {
        Seq::empty()
    } else {
        spec_hex_encode(s.drop_last()) + seq![
            hex_digit_char(s.last() as nat / 16),
            hex_digit_char(s.last() as nat % 16),
        ]
    }
}

/// Relies on `hex::encode`: renders bytes as lowercase hexadecimal, two
/// digits per byte, high nibble first.
#[verifier::external_body]
fn hex_string(b: &[u8]) -> (r: String)
    ensures
        r@ == spec_hex_encode(b@),
{
    hex::encode(b)
}

/// Whether a byte may appear in a text preview: a graphic ASCII character
/// or ASCII whitespace.
pub open spec fn byte_displayable(b: u8) -> bool {
    (0x20 <= b <= 0x7e) || b == 0x09 || b == 0x0a || b == 0x0c || b == 0x0d
}

/// Whether every byte of `s` may appear in a text preview.
pub open spec fn all_displayable(s: Seq<u8>) -> bool {
    forall|i: int| 0 <= i < s.len() ==> byte_displayable(#[trigger] s[i])
}

/// One byte of a text preview: line feeds and carriage returns appear as
/// two-character escapes, everything else as itself.
pub open spec fn esc_byte(b: u8) -> Seq<char> {
    if b == 0x0a {
        seq!['\\', 'n']
    } else if b == 0x0d {
        seq!['\\', 'r']
    } else {
        seq![b as char]
    }
}

/// The escaped text rendering of `s`.
pub open spec fn spec_escape(s: Seq<u8>) -> Seq<char>
    decreases s.len(),
{
    if s.len() == 0 {
        Seq::empty()
    } else {
        spec_escape(s.drop_last()) + esc_byte(s.last())
    }
}

/// The plain TCP rendering of a chunk: the total byte count, a hexadecimal
/// preview of the leading bytes, the same preview as escaped text when it is
/// wholly displayable, and how many bytes the preview leaves out.
pub struct TcpRender {
    pub total_len: usize,
    pub hex_preview: String,
    pub text_preview: Option<String>,
    pub suppressed: usize,
}

/// What a TCP rendering of the chunk `data` holds.
pub open spec fn is_tcp_render_of(r: TcpRender, data: Seq<u8>) -> bool {
    let preview = data.take(spec_preview_len(TCP_PREVIEW as nat, data.len()) as int);
    &&& r.total_len == data.len()
    &&& r.hex_preview@ == spec_hex_encode(preview)
    &&& (r.text_preview is Some <==> all_displayable(preview))
    &&& (match r.text_preview {
        Some(t) => t@ == spec_escape(preview),
        None => true,
    })
    &&& r.suppressed == data.len() - spec_preview_len(TCP_PREVIEW as nat, data.len())
}

/// Renders a chunk the plain TCP way.
pub fn classify_tcp(data: &[u8]) -> (r: TcpRender)
    ensures
        is_tcp_render_of(r, data@),
{
    let total_len = data.len();
    let plen = if total_len < TCP_PREVIEW {
        total_len
    } else {
        TCP_PREVIEW
    };
    let preview = slice_subrange(data, 0, plen);
    assert(preview@ =~= data@.take(spec_preview_len(TCP_PREVIEW as nat, data@.len()) as int));
    let hex_preview = hex_string(preview);

    let mut displayable = true;
    let mut i: usize = 0;
    while i < plen
        invariant
            i <= plen,
            plen == preview@.len(),
            displayable <==> all_displayable(preview@.take(i as int)),
        decreases plen - i,
    {
        let b = preview[i];
        if !((0x20 <= b && b <= 0x7e) || b == 0x09 || b == 0x0a || b == 0x0c || b == 0x0d) {
            assert(preview@.take(i + 1)[i as int] == b);
            displayable = false;
        }
        assert(preview@.take(i as int) =~= preview@.take(i + 1).take(i as int));
        assert(displayable <==> all_displayable(preview@.take(i + 1))) by {
            if displayable {
                assert(forall|j: int|
                    0 <= j < i + 1 ==> byte_displayable(#[trigger] preview@.take(i + 1)[j]));
            }
        }
        i = i + 1;
    }
    assert(preview@.take(plen as int) =~= preview@);

    let text_preview = if displayable {
        let mut t = String::new();
        let mut k: usize = 0;
        while k < plen
            invariant
                k <= plen,
                plen == preview@.len(),
                t@ == spec_escape(preview@.take(k as int)),
            decreases plen - k,
        {
            let b = preview[k];
            if b == 0x0a {
                push_char(&mut t, '\\');
                push_char(&mut t, 'n');
            } else if b == 0x0d {
                push_char(&mut t, '\\');
                push_char(&mut t, 'r');
            } else {
                push_char(&mut t, b as char);
            }
            assert(preview@.take(k + 1).drop_last() =~= preview@.take(k as int));
            assert(t@ =~= spec_escape(preview@.take(k + 1)));
            k = k + 1;
        }
        assert(preview@.take(plen as int) =~= preview@);
        Some(t)
    } else {
        None
    };

    TcpRender { total_len, hex_preview, text_preview, suppressed: total_len - plen }
}

/// What UTF-8 decoding of `b` yields, as `String::from_utf8` computes it:
/// the characters on success, nothing when the bytes are not valid UTF-8.
pub uninterp spec fn utf8_decode(b: Seq<u8>) -> Option<Seq<char>>;

/// Relies on `String::from_utf8`: the result is a function of the bytes
/// alone; it is the decoded text exactly when the bytes are valid UTF-8.
#[verifier::external_body]
fn decode_utf8(v: Vec<u8>) -> (r: Option<String>)
    ensures
        r is Some <==> utf8_decode(v@) is Some,
        (r matches Some(s) ==> utf8_decode(v@) == Some(s@)),
{
    String::from_utf8(v).ok()
}

/// Whether decoded text looks like the start of an HTTP message.
pub open spec fn is_http_start(t: Seq<char>) -> bool {
    ||| spec_starts_with(t, "GET "@)
    ||| spec_starts_with(t, "POST "@)
    ||| spec_starts_with(t, "PUT "@)
    ||| spec_starts_with(t, "DELETE "@)
    ||| spec_starts_with(t, "HTTP/"@)
}

/// The header/body separator: an empty line.
pub open spec fn crlf2() -> Seq<char> {
    seq!['\r', '\n', '\r', '\n']
}

/// Whether the first empty line of `t` ends the headers at `i`.
pub open spec fn is_header_split_at(t: Seq<char>, i: int) -> bool {
    &&& 0 <= i
    &&& i + 4 <= t.len()
    &&& t.subrange(i, i + 4) == crlf2()
    &&& forall|j: int| 0 <= j < i ==> #[trigger] t.subrange(j, j + 4) != crlf2()
}

/// The HTTP rendering of decoded text: headers and body split at the first
/// empty line, or the text as one block when it has no empty line.
pub enum HttpRender {
    Split { headers: Vec<String>, body: Option<String> },
    Unsplit { text: String },
}

/// What an HTTP rendering of the decoded text `t` holds: `Split` carries the
/// header lines and the non-empty body behind the first empty line;
/// `Unsplit` carries the whole text when no empty line exists.
pub open spec fn is_http_render_of(h: HttpRender, t: Seq<char>) -> bool {
    match h {
        HttpRender::Split { headers, body } => exists|i: int|
            #[trigger] is_header_split_at(t, i) && {
                let hdr = t.take(i);
                let bod = t.skip(i + 4);
                &&& headers@.len() == spec_split_lines(hdr).len()
                &&& (forall|k: int|
                    0 <= k < headers@.len() ==> headers@[k]@ == #[trigger] spec_split_lines(hdr)[k])
                &&& (body is Some <==> bod.len() > 0)
                &&& (match body {
                    Some(b) => b@ == bod,
                    None => true,
                })
            },
        HttpRender::Unsplit { text } => text@ == t && forall|j: int|
            0 <= j && j + 4 <= t.len() ==> #[trigger] t.subrange(j, j + 4) != crlf2(),
    }
}

/// The database message rendering: queries and completions carry their
/// decoded text (nothing when it is not UTF-8), framed messages carry the
/// length their header declares, and an unknown tag carries a hexadecimal
/// preview.
pub enum PostgresRender {
    Query { text: Option<String> },
    CommandComplete { text: Option<String> },
    Parse { length: u32 },
    Bind { length: u32 },
    Execute { length: u32 },
    RowDescription { length: u32 },
    DataRow { length: u32 },
    Authentication { length: u32 },
    Sync,
    ReadyForQuery,
    Terminate,
    Unknown { tag: u8, length: u32, hex_preview: String },
}

/// The big-endian 32-bit value of four bytes.
pub open spec fn spec_be_u32(a: u8, b: u8, c: u8, d: u8) -> u32 {
    (a as nat * 0x1000000 + b as nat * 0x10000 + c as nat * 0x100 + d as nat) as u32
}

/// `s` with every trailing NUL character removed.
pub open spec fn spec_trim_nuls(s: Seq<char>) -> Seq<char>
    decreases s.len(),
{
    if s.len() > 0 && s.last() == '\0' {
        spec_trim_nuls(s.drop_last())
    } else {
        s
    }
}

/// What a decoded-and-trimmed text field holds for the bytes `b`.
pub open spec fn is_trimmed_decode_of(t: Option<String>, b: Seq<u8>) -> bool {
    match utf8_decode(b) {
        Some(s) => t matches Some(ts) && ts@ == spec_trim_nuls(s),
        None => t is None,
    }
}

/// What a database rendering of the chunk `data` holds, for chunks of at
/// least five bytes: one byte of message tag, then a big-endian length.
pub open spec fn is_pg_render_of(p: PostgresRender, data: Seq<u8>) -> bool
    recommends
        data.len() >= 5,
{
    let tag = data[0];
    let length = spec_be_u32(data[1], data[2], data[3], data[4]);
    if tag == 0x51u8 {  // Q: query
        p matches PostgresRender::Query { text } && is_trimmed_decode_of(text, data.skip(5))
    } else if tag == 0x43u8 {  // C: command complete
        p matches PostgresRender::CommandComplete { text } && is_trimmed_decode_of(
            text,
            data.skip(5),
        )
    } else if tag == 0x50u8 {  // P: parse
        p matches PostgresRender::Parse { length: l } && l == length
    } else if tag == 0x42u8 {  // B: bind
        p matches PostgresRender::Bind { length: l } && l == length
    } else if tag == 0x45u8 {  // E: execute
        p matches PostgresRender::Execute { length: l } && l == length
    } else if tag == 0x54u8 {  // T: row description
        p matches PostgresRender::RowDescription { length: l } && l == length
    } else if tag == 0x44u8 {  // D: data row
        p matches PostgresRender::DataRow { length: l } && l == length
    } else if tag == 0x52u8 {  // R: authentication
        p matches PostgresRender::Authentication { length: l } && l == length
    } else if tag == 0x53u8 {  // S
        p is Sync
    } else if tag == 0x5au8 {  // Z
        p is ReadyForQuery
    } else if tag == 0x58u8 {  // X
        p is Terminate
    } else {
        p matches PostgresRender::Unknown { tag: t, length: l, hex_preview } && t == tag && l
            == length && hex_preview@ == spec_hex_encode(
            data.take(spec_preview_len(PG_PREVIEW as nat, data.len()) as int),
        )
    }
}

/// One classified chunk: what the log record renders.
pub enum Classification {
    Tcp(TcpRender),
    Http(HttpRender),
    Postgres(PostgresRender),
}

/// What classifying the chunk `data` under `protocol` yields.  HTTP applies
/// only to chunks that decode as UTF-8 and start like an HTTP message, and
/// database framing only to chunks of at least five bytes; everything else,
/// the empty chunk included, falls back to the plain TCP rendering.
pub open spec fn is_classification_of(c: Classification, protocol: Protocol, data: Seq<u8>) -> bool {
    match protocol {
        Protocol::Tcp => c matches Classification::Tcp(t) && is_tcp_render_of(t, data),
        Protocol::Http => match utf8_decode(data) {
            Some(text) => if is_http_start(text) {
                c matches Classification::Http(h) && is_http_render_of(h, text)
            } else {
                c matches Classification::Tcp(t) && is_tcp_render_of(t, data)
            },
            None => c matches Classification::Tcp(t) && is_tcp_render_of(t, data),
        },
        Protocol::Postgres => if data.len() < 5 {
            c matches Classification::Tcp(t) && is_tcp_render_of(t, data)
        } else {
            c matches Classification::Postgres(p) && is_pg_render_of(p, data)
        },
    }
}

/// Classifies a chunk as HTTP traffic, falling back to the TCP rendering
/// for chunks that are not UTF-8 or do not start like an HTTP message.
fn classify_http(data: &[u8]) -> (c: Classification)
    ensures
        is_classification_of(c, Protocol::Http, data@),
{
    let copied = vstd::slice::slice_to_vec(data);
    match decode_utf8(copied) {
        None => Classification::Tcp(classify_tcp(data)),
        Some(text) => {
            let chars = str_chars(text.as_str());
            let starts = chars_start_with(&chars, "GET ") || chars_start_with(&chars, "POST ")
                || chars_start_with(&chars, "PUT ") || chars_start_with(&chars, "DELETE ")
                || chars_start_with(&chars, "HTTP/");
            if !starts {
                return Classification::Tcp(classify_tcp(data));
            }
            let mut pat: Vec<char> = Vec::new();
            pat.push('\r');
            pat.push('\n');
            pat.push('\r');
            pat.push('\n');
            assert(pat@ =~= crlf2());
            match find_seq(&chars, &pat) {
                Some(i) => {
                    proof {
                        assert forall|j: int| 0 <= j < i implies #[trigger] text@.subrange(j, j + 4)
                            != crlf2() by {
                            assert(text@.subrange(j, j + pat@.len()) != pat@);
                        }
                        assert(text@.subrange(i as int, i + 4) == text@.subrange(
                            i as int,
                            i + pat@.len(),
                        ));
                        assert(is_header_split_at(text@, i as int));
                    }
                    let clen = chars.len();
                    assert(i + 4 <= clen);
                    let hdr = crate::strutil::char_range(&chars, 0, i);
                    assert(hdr@ =~= text@.take(i as int));
                    let headers = split_lines(&hdr);
                    let body = if i + 4 == clen {
                        None
                    } else {
                        Some(chars_string(&chars, i + 4, clen))
                    };
                    proof {
                        assert(text@.subrange(i + 4, text@.len() as int) =~= text@.skip(i + 4));
                    }
                    Classification::Http(HttpRender::Split { headers, body })
                },
                None => {
                    proof {
                        assert forall|j: int| 0 <= j && j + 4 <= text@.len() implies #[trigger]
                        text@.subrange(j, j + 4) != crlf2() by {
                            assert(text@.subrange(j, j + pat@.len()) != pat@);
                        }
                    }
                    Classification::Http(HttpRender::Unsplit { text })
                },
            }
        },
    }
}

/// Trims every trailing NUL character from `s`.
fn trim_nuls(s: &String) -> (r: String)
    ensures
        r@ == spec_trim_nuls(s@),
{
    let chars = str_chars(s.as_str());
    let mut end: usize = chars.len();
    assert(chars@.take(end as int) =~= chars@);
    while end > 0 && chars[end - 1] == '\0'
        invariant
            end <= chars@.len(),
            chars@ == s@,
            spec_trim_nuls(s@) == spec_trim_nuls(chars@.take(end as int)),
        decreases end,
    {
        proof {
            assert(chars@.take(end as int).last() == '\0');
            assert(chars@.take(end as int).drop_last() =~= chars@.take(end - 1));
        }
        end = end - 1;
    }
    let r = chars_string(&chars, 0, end);
    assert(chars@.subrange(0, end as int) =~= chars@.take(end as int));
    r
}

/// Decodes the bytes behind the message header and trims trailing NULs.
fn decoded_tail(data: &[u8]) -> (t: Option<String>)
    requires
        data@.len() >= 5,
    ensures
        is_trimmed_decode_of(t, data@.skip(5)),
{
    let tail = vstd::slice::slice_to_vec(slice_subrange(data, 5, data.len()));
    assert(tail@ =~= data@.skip(5));
    match decode_utf8(tail) {
        Some(s) => Some(trim_nuls(&s)),
        None => None,
    }
}

/// Classifies a chunk as database traffic: every chunk under five bytes
/// falls back to the TCP rendering; the rest are read as a tag byte and a
/// big-endian length.
fn classify_postgres(data: &[u8]) -> (c: Classification)
    ensures
        is_classification_of(c, Protocol::Postgres, data@),
{
    let n = data.len();
    if n < 5 {
        return Classification::Tcp(classify_tcp(data));
    }
    let tag = data[0];
    let length: u32 = (data[1] as u32) * 0x1000000 + (data[2] as u32) * 0x10000 + (data[3] as u32)
        * 0x100 + (data[4] as u32);
    let p = if tag == 0x51 {  // Q: query
        PostgresRender::Query { text: decoded_tail(data) }
    } else if tag == 0x43 {  // C: command complete
        PostgresRender::CommandComplete { text: decoded_tail(data) }
    } else if tag == 0x50 {  // P: parse
        PostgresRender::Parse { length }
    } else if tag == 0x42 {  // B: bind
        PostgresRender::Bind { length }
    } else if tag == 0x45 {  // E: execute
        PostgresRender::Execute { length }
    } else if tag == 0x54 {  // T: row description
        PostgresRender::RowDescription { length }
    } else if tag == 0x44 {  // D: data row
        PostgresRender::DataRow { length }
    } else if tag == 0x52 {  // R: authentication
        PostgresRender::Authentication { length }
    } else if tag == 0x53 {  // S
        PostgresRender::Sync
    } else if tag == 0x5a {  // Z
        PostgresRender::ReadyForQuery
    } else if tag == 0x58 {  // X
        PostgresRender::Terminate
    } else {
        let plen = if n < PG_PREVIEW {
            n
        } else {
            PG_PREVIEW
        };
        let preview = slice_subrange(data, 0, plen);
        assert(preview@ =~= data@.take(spec_preview_len(PG_PREVIEW as nat, data@.len()) as int));
        PostgresRender::Unknown { tag, length, hex_preview: hex_string(preview) }
    };
    Classification::Postgres(p)
}

/// Classifies one chunk under the protocol the relay runs with.
pub fn classify(protocol: Protocol, data: &[u8]) -> (c: Classification)
    ensures
        is_classification_of(c, protocol, data@),
{
    match protocol {
        Protocol::Tcp => Classification::Tcp(classify_tcp(data)),
        Protocol::Http => classify_http(data),
        Protocol::Postgres => classify_postgres(data),
    }
}

/// One log record: direction, protocol, a clock reading, and the rendering.
/// Records are produced on the data path and never stored.
pub struct ProtocolEvent {
    pub direction: Direction,
    pub protocol: Protocol,
    pub timestamp: String,
    pub classification: Classification,
}

/// Relies on the system clock (`SystemTime::now`) and chrono's checked
/// `DateTime::from_timestamp` and format writer: a clock reading rendered
/// as text.  Nothing is promised of the value, which depends on the wall
/// clock; a reading before the Unix epoch or outside chrono's range
/// renders as the epoch instead of failing.
#[verifier::external_body]
fn now_timestamp() -> (r: String) {
    let since_epoch = std::time::SystemTime::now()
        .duration_since(std::time::UNIX_EPOCH)
        .unwrap_or_default();
    let secs = i64::try_from(since_epoch.as_secs()).unwrap_or(0);
    match chrono::DateTime::<chrono::Utc>::from_timestamp(secs, since_epoch.subsec_nanos()) {
        Some(t) => t.format("%Y-%m-%d %H:%M:%S%.3f UTC").to_string(),
        None => "1970-01-01 00:00:00.000 UTC".to_string(),
    }
}

impl ProtocolEvent {
    /// Builds the log record for one chunk with a caller-supplied clock
    /// reading.
    pub fn at(direction: Direction, protocol: Protocol, timestamp: String, data: &[u8]) -> (ev:
        ProtocolEvent)
        ensures
            ev.direction == direction,
            ev.protocol == protocol,
            ev.timestamp == timestamp,
            is_classification_of(ev.classification, protocol, data@),
    {
        ProtocolEvent { direction, protocol, timestamp, classification: classify(protocol, data) }
    }

    /// Builds the log record for one chunk, stamped with the clock now.
    /// Everything but the clock reading is pinned down.
    pub fn observe(direction: Direction, protocol: Protocol, data: &[u8]) -> (ev: ProtocolEvent)
        ensures
            ev.direction == direction,
            ev.protocol == protocol,
            is_classification_of(ev.classification, protocol, data@),
    {
        Self::at(direction, protocol, now_timestamp(), data)
    }
}

/// The direction label of a log record.
pub open spec fn spec_direction_label(d: Direction) -> Seq<char> {
    match d {
        Direction::Request => "-> REQUEST"@,
        Direction::Response => "<- RESPONSE"@,
    }
}

/// The banner of a log record: the clock reading, the direction, and the
/// protocol's title.
pub open spec fn spec_banner(ev: ProtocolEvent, title: Seq<char>) -> Seq<char> {
    "["@ + ev.timestamp@ + "] "@ + spec_direction_label(ev.direction) + title
}

/// The rendered lines of a plain TCP record.
pub open spec fn is_tcp_lines_of(r: Seq<String>, ev: ProtocolEvent, t: TcpRender) -> bool {
    let fixed = 2 + (if t.text_preview is Some {
        1int
    } else {
        0int
    }) + (if t.suppressed > 0 {
        1int
    } else {
        0int
    });
    &&& r.len() == fixed
    &&& r[0]@ == spec_banner(ev, " TCP Message ("@ + spec_dec(t.total_len as nat) + " bytes):"@)
    &&& r[1]@ == "   Hex: "@ + t.hex_preview@
    &&& (match t.text_preview {
        Some(text) => r[2]@ == "   Text: "@ + text@,
        None => true,
    })
    &&& t.suppressed > 0 ==> r[r.len() - 1]@ == "   ... ("@ + spec_dec(t.suppressed as nat)
        + " more bytes)"@
}

/// The rendered lines of an HTTP record.
pub open spec fn is_http_lines_of(r: Seq<String>, ev: ProtocolEvent, h: HttpRender) -> bool {
    &&& r.len() >= 1
    &&& r[0]@ == spec_banner(ev, " HTTP Message:"@)
    &&& (match h {
        HttpRender::Split { headers, body } => {
            let body_lines: int = if body is Some {
                2int
            } else {
                0int
            };
            &&& r.len() == 2 + headers@.len() + body_lines
            &&& r[1]@ == "   Headers:"@
            &&& (forall|k: int|
                0 <= k < headers@.len() ==> r[2 + k]@ == "     "@ + (#[trigger] headers@[k])@)
            &&& (match body {
                Some(b) => r[r.len() - 2]@ == "   Body:"@ && r[r.len() - 1]@ == "     "@ + b@,
                None => true,
            })
        },
        HttpRender::Unsplit { text } => r.len() == 2 && r[1]@ == "   "@ + text@,
    })
}

/// The rendered lines of a database record.
pub open spec fn is_postgres_lines_of(r: Seq<String>, ev: ProtocolEvent, p: PostgresRender) -> bool {
    &&& r.len() >= 1
    &&& r[0]@ == spec_banner(ev, " PostgreSQL Message:"@)
    &&& (match p {
        PostgresRender::Query { text } => match text {
            Some(q) => r.len() == 2 && r[1]@ == "   Query: "@ + q@,
            None => r.len() == 1,
        },
        PostgresRender::CommandComplete { text } => match text {
            Some(c) => r.len() == 2 && r[1]@ == "   Command Complete: "@ + c@,
            None => r.len() == 1,
        },
        PostgresRender::Parse { length } => r.len() == 2 && r[1]@ == "   Parse message (length: "@
            + spec_dec(length as nat) + ")"@,
        PostgresRender::Bind { length } => r.len() == 2 && r[1]@ == "   Bind message (length: "@
            + spec_dec(length as nat) + ")"@,
        PostgresRender::Execute { length } => r.len() == 2 && r[1]@
            == "   Execute message (length: "@ + spec_dec(length as nat) + ")"@,
        PostgresRender::RowDescription { length } => r.len() == 2 && r[1]@
            == "   Row Description (length: "@ + spec_dec(length as nat) + ")"@,
        PostgresRender::DataRow { length } => r.len() == 2 && r[1]@ == "   Data Row (length: "@
            + spec_dec(length as nat) + ")"@,
        PostgresRender::Authentication { length } => r.len() == 2 && r[1]@
            == "   Authentication Response (length: "@ + spec_dec(length as nat) + ")"@,
        PostgresRender::Sync => r.len() == 2 && r[1]@ == "   Sync message"@,
        PostgresRender::ReadyForQuery => r.len() == 2 && r[1]@ == "   Ready for Query"@,
        PostgresRender::Terminate => r.len() == 2 && r[1]@ == "   Terminate message"@,
        PostgresRender::Unknown { tag, length, hex_preview } => {
            &&& r.len() == 3
            &&& r[1]@ == "   Unknown message type '"@ + seq![tag as char] + "' (length: "@
                + spec_dec(length as nat) + ")"@
            &&& r[2]@ == "   Raw data: "@ + hex_preview@
        },
    })
}

/// The rendered summary of a log record, line by line.
pub open spec fn is_rendering_of(r: Seq<String>, ev: ProtocolEvent) -> bool {
    match ev.classification {
        Classification::Tcp(t) => is_tcp_lines_of(r, ev, t),
        Classification::Http(h) => is_http_lines_of(r, ev, h),
        Classification::Postgres(p) => is_postgres_lines_of(r, ev, p),
    }
}

/// The banner line of a record, under the given protocol title.
fn banner_line(ev: &ProtocolEvent, title: &str) -> (r: String)
    ensures
        r@ == spec_banner(*ev, title@),
{
    let mut line = String::from_str("[");
    line.append(ev.timestamp.as_str());
    line.append("] ");
    match ev.direction {
        Direction::Request => line.append("-> REQUEST"),
        Direction::Response => line.append("<- RESPONSE"),
    }
    line.append(title);
    assert(line@ =~= spec_banner(*ev, title@));
    line
}

/// A line of one label and one rendered number.
fn length_line(prefix: &str, length: u32) -> (r: String)
    ensures
        r@ == prefix@ + spec_dec(length as nat) + ")"@,
{
    let mut line = String::from_str(prefix);
    let dec = u64_dec(length as u64);
    line.append(dec.as_str());
    line.append(")");
    assert(line@ =~= prefix@ + spec_dec(length as nat) + ")"@);
    line
}

/// A line of one label and one text field.
fn text_line(prefix: &str, text: &String) -> (r: String)
    ensures
        r@ == prefix@ + text@,
{
    let mut line = String::from_str(prefix);
    line.append(text.as_str());
    line
}

/// Renders one log record to its lines, ready to print.  Logging happens
/// on the data path, so the record is rendered synchronously before the
/// chunk is forwarded.
#[verifier::loop_isolation(false)]
pub fn render_lines(ev: &ProtocolEvent) -> (r: Vec<String>)
    ensures
        is_rendering_of(r@, *ev),
{
    let mut r: Vec<String> = Vec::new();
    match &ev.classification {
        Classification::Tcp(t) => {
            let mut banner = String::from_str("[");
            banner.append(ev.timestamp.as_str());
            banner.append("] ");
            match ev.direction {
                Direction::Request => banner.append("-> REQUEST"),
                Direction::Response => banner.append("<- RESPONSE"),
            }
            banner.append(" TCP Message (");
            let total = u64_dec(t.total_len as u64);
            banner.append(total.as_str());
            banner.append(" bytes):");
            assert(banner@ =~= spec_banner(*ev, " TCP Message ("@ + spec_dec(t.total_len as nat)
                + " bytes):"@));
            r.push(banner);
            r.push(text_line("   Hex: ", &t.hex_preview));
            match &t.text_preview {
                Some(text) => {
                    r.push(text_line("   Text: ", text));
                },
                None => {},
            }
            if t.suppressed > 0 {
                let mut more = String::from_str("   ... (");
                let count = u64_dec(t.suppressed as u64);
                more.append(count.as_str());
                more.append(" more bytes)");
                assert(more@ =~= "   ... ("@ + spec_dec(t.suppressed as nat) + " more bytes)"@);
                r.push(more);
            }
        },
        Classification::Http(h) => {
            r.push(banner_line(ev, " HTTP Message:"));
            match h {
                HttpRender::Split { headers, body } => {
                    r.push(String::from_str("   Headers:"));
                    let mut k: usize = 0;
                    while k < headers.len()
                        invariant
                            k <= headers@.len(),
                            r@.len() == 2 + k,
                            r@[0]@ == spec_banner(*ev, " HTTP Message:"@),
                            r@[1]@ == "   Headers:"@,
                            forall|m: int|
                                0 <= m < k ==> r@[2 + m]@ == "     "@ + (#[trigger] headers@[m])@,
                        decreases headers@.len() - k,
                    {
                        r.push(text_line("     ", &headers[k]));
                        k = k + 1;
                    }
                    match body {
                        Some(b) => {
                            r.push(String::from_str("   Body:"));
                            r.push(text_line("     ", b));
                        },
                        None => {},
                    }
                },
                HttpRender::Unsplit { text } => {
                    r.push(text_line("   ", text));
                },
            }
        },
        Classification::Postgres(p) => {
            r.push(banner_line(ev, " PostgreSQL Message:"));
            match p {
                PostgresRender::Query { text } => match text {
                    Some(q) => {
                        r.push(text_line("   Query: ", q));
                    },
                    None => {},
                },
                PostgresRender::CommandComplete { text } => match text {
                    Some(c) => {
                        r.push(text_line("   Command Complete: ", c));
                    },
                    None => {},
                },
                PostgresRender::Parse { length } => {
                    r.push(length_line("   Parse message (length: ", *length));
                },
                PostgresRender::Bind { length } => {
                    r.push(length_line("   Bind message (length: ", *length));
                },
                PostgresRender::Execute { length } => {
                    r.push(length_line("   Execute message (length: ", *length));
                },
                PostgresRender::RowDescription { length } => {
                    r.push(length_line("   Row Description (length: ", *length));
                },
                PostgresRender::DataRow { length } => {
                    r.push(length_line("   Data Row (length: ", *length));
                },
                PostgresRender::Authentication { length } => {
                    r.push(length_line("   Authentication Response (length: ", *length));
                },
                PostgresRender::Sync => {
                    r.push(String::from_str("   Sync message"));
                },
                PostgresRender::ReadyForQuery => {
                    r.push(String::from_str("   Ready for Query"));
                },
                PostgresRender::Terminate => {
                    r.push(String::from_str("   Terminate message"));
                },
                PostgresRender::Unknown { tag, length, hex_preview } => {
                    let mut line = String::from_str("   Unknown message type '");
                    push_char(&mut line, *tag as char);
                    line.append("' (length: ");
                    let dec = u64_dec(*length as u64);
                    line.append(dec.as_str());
                    line.append(")");
                    assert(line@ =~= "   Unknown message type '"@ + seq![*tag as char]
                        + "' (length: "@ + spec_dec(*length as nat) + ")"@);
                    r.push(line);
                    r.push(text_line("   Raw data: ", hex_preview));
                },
            }
        },
    }
    r
}

/// Classifies one chunk and hands the very same bytes back for forwarding:
/// classification never alters or drops the chunk, whatever its outcome.
pub fn process_chunk(direction: Direction, protocol: Protocol, data: Vec<u8>) -> (r: (
    ProtocolEvent,
    Vec<u8>,
))
    ensures
        r.1@ == data@,
        r.0.direction == direction,
        r.0.protocol == protocol,
        is_classification_of(r.0.classification, protocol, data@),
{
    let ev = ProtocolEvent::observe(direction, protocol, data.as_slice());
    (ev, data)
}

} // verus!
