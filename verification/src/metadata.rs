//! What the measurement service says about the client and about itself:
//! the country line of its trace page and the headers that describe the
//! server.

use vstd::prelude::*;
use vstd::slice::{slice_subrange, slice_to_vec};

verus! {

/// The line feed that ends a line.
pub const LF: u8 = 0x0a;

/// The carriage return that may stand before a line feed.
pub const CR: u8 = 0x0d;

/// Whether `text` begins with `prefix`.
pub open spec fn has_prefix(text: Seq<u8>, prefix: Seq<u8>) -> bool {
    prefix.len() <= text.len() && text.subrange(0, prefix.len() as int) == prefix
}

/// The key of the country line: `loc=`.
pub open spec fn country_key() -> Seq<u8> {
    seq![0x6c, 0x6f, 0x63, 0x3d]
}

/// What the name of every header about the server begins with: `cf-`.
pub open spec fn server_header_prefix() -> Seq<u8> {
    seq![0x63, 0x66, 0x2d]
}

/// The position of the first line feed at or after `start`, or the length
/// of `body` if there is none.
pub open spec fn line_end(body: Seq<u8>, start: int) -> int
    decreases body.len() - start,
{
    if start >= body.len() {
        body.len() as int
    } else if body[start] == LF {
        start
    } else {
        line_end(body, start + 1)
    }
}

/// Whether a line begins at `position`: at the start of the body or right
/// after a line feed, with at least one byte to follow.
pub open spec fn is_line_start(body: Seq<u8>, position: int) -> bool {
    0 <= position < body.len() && (position == 0 || body[position - 1] == LF)
}

/// The line that begins at `start`, without the line feed that ends it or
/// the carriage return before that line feed.
pub open spec fn line_at(body: Seq<u8>, start: int) -> Seq<u8> {
    let end = line_end(body, start);
    if end < body.len() && start < end && body[end - 1] == CR {
        body.subrange(start, end - 1)
    } else {
        body.subrange(start, end)
    }
}

/// Whether the line that begins at `position` is a country line.
pub open spec fn names_country(body: Seq<u8>, position: int) -> bool {
    is_line_start(body, position) && has_prefix(line_at(body, position), country_key())
}

/// The country that the country line at `position` names: what follows the
/// key.
pub open spec fn country_at(body: Seq<u8>, position: int) -> Seq<u8> {
    line_at(body, position).skip(country_key().len() as int)
}

/// The first line feed after `start` is not before `start`, ends the run of
/// bytes that are not line feeds, and is a line feed unless the body ends.
pub proof fn line_end_is_first_line_feed(body: Seq<u8>, start: int)
    requires
        0 <= start <= body.len(),
    ensures
        start <= line_end(body, start) <= body.len(),
        forall|j: int| start <= j < line_end(body, start) ==> body[j] != LF,
        line_end(body, start) < body.len() ==> body[line_end(body, start)] == LF,
    decreases body.len() - start,
{
    if start < body.len() && body[start] != LF {
        line_end_is_first_line_feed(body, start + 1);
    }
}

/// Finds the country of the client in the body of the trace page: the rest
/// of the first line that begins with `loc=`. Lines end with a line feed,
/// or a carriage return and a line feed; the last line may go without.
pub fn country_of(body: &[u8]) -> (country: Option<Vec<u8>>)
    ensures
        match country {
            Some(code) => exists|p: int|
                {
                    &&& #[trigger] names_country(body@, p)
                    &&& forall|q: int| 0 <= q < p ==> !names_country(body@, q)
                    &&& code@ == country_at(body@, p)
                },
            None => forall|p: int| !names_country(body@, p),
        },
{
    let len: usize = body.len();
    let mut start: usize = 0;
    while start < len
        invariant
            len == body@.len(),
            start <= len,
            start == 0 || start == len || body@[start - 1] == LF,
            forall|q: int| 0 <= q < start ==> !names_country(body@, q),
        decreases len - start,
    {
        let mut end: usize = start;
        while end < len && body[end] != LF
            invariant
                len == body@.len(),
                start <= end <= len,
                line_end(body@, start as int) == line_end(body@, end as int),
            decreases len - end,
        {
            end = end + 1;
        }
        proof {
            line_end_is_first_line_feed(body@, start as int);
        }
        let text_end: usize = if end < len && start < end && body[end - 1] == CR {
            end - 1
        } else {
            end
        };
        if text_end - start >= 4 && body[start] == 0x6c && body[start + 1] == 0x6f && body[start
            + 2] == 0x63 && body[start + 3] == 0x3d {
            let code = slice_to_vec(slice_subrange(body, start + 4, text_end));
            assert(names_country(body@, start as int)) by {
                assert(line_at(body@, start as int).subrange(0, 4) =~= country_key());
            }
            return Some(code);
        }
        if end == len {
            start = len;
        } else {
            start = end + 1;
        }
    }
    None
}

/// Tells whether a response header describes the measurement server: its
/// name begins with `cf-`.
pub fn is_server_header(name: &[u8]) -> (about_server: bool)
    ensures
        about_server == has_prefix(name@, server_header_prefix()),
{
    let found: bool = name.len() >= 3 && name[0] == 0x63 && name[1] == 0x66 && name[2] == 0x2d;
    if found {
        assert(name@.subrange(0, 3) =~= server_header_prefix());
    }
    found
}

} // verus!
