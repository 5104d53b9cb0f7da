//! The wire screen in front of the DNS parser. The outside parsing library
//! reads a few resource-record layouts with unchecked indexing, so a payload
//! whose declared record data length does not cover those reads would make
//! it index past the end instead of returning an error; and it renders the
//! question and answer names with a `Display` that errors on a label that is
//! not valid UTF-8, which turns into a panic when the text is collected.
//! This module walks the wire format the same way the parser does — names
//! label by label, a compression pointer ending a name in place (and, for
//! the names that are rendered, following the pointer chain to every
//! collected label), then each record's type and declared data length — and
//! admits a payload only when every such read is covered and every rendered
//! label is valid UTF-8, so that on every admitted payload the parser
//! returns normally. Anything the screen turns away is reported by the
//! caller as a parse failure of its own; no byte of it reaches the outside
//! parser.

use vstd::prelude::*;

verus! {

/// A 16-bit big-endian field.
pub open spec fn spec_be16(p: Seq<u8>, i: int) -> int {
    (p[i] as int) * 256 + (p[i + 1] as int)
}

/// The position just after an encoded name that starts at `pos`, walking it
/// as the parser does: a zero byte ends the name, a byte of 192 or above is
/// a two-byte compression pointer that ends the name in place, and any other
/// byte is a label length. `None` where the parser would stop with an error.
pub open spec fn spec_skip_name(p: Seq<u8>, pos: int, limit: int) -> Option<int>
    recommends
        limit <= p.len(),
    decreases limit - pos,
{
    if pos < 0 || pos >= limit || limit > p.len() {
        None
    } else {
        let b = p[pos] as int;
        if b == 0 {
            Some(pos + 1)
        } else if b >= 192 {
            if pos + 2 <= limit {
                Some(pos + 2)
            } else {
                None
            }
        } else if pos + 1 + b <= limit {
            spec_skip_name(p, pos + 1 + b, limit)
        } else {
            None
        }
    }
}

/// Whether `p[q..end]` is a well-formed UTF-8 byte sequence: the
/// byte-pattern table of the UTF-8 definition, which is exactly what
/// `str::from_utf8` accepts — no overlong forms, no surrogate codepoints,
/// nothing beyond the Unicode range.
pub open spec fn spec_utf8_ok(p: Seq<u8>, q: int, end: int) -> bool
    recommends
        end <= p.len(),
    decreases end - q,
{
    if q >= end {
        true
    } else {
        let b = p[q] as int;
        if b < 0x80 {
            spec_utf8_ok(p, q + 1, end)
        } else if 0xC2 <= b && b <= 0xDF {
            if q + 2 <= end && spec_utf8_cont(p, q + 1) {
                spec_utf8_ok(p, q + 2, end)
            } else {
                false
            }
        } else if b == 0xE0 {
            if q + 3 <= end && 0xA0 <= p[q + 1] && p[q + 1] <= 0xBF && spec_utf8_cont(p, q + 2) {
                spec_utf8_ok(p, q + 3, end)
            } else {
                false
            }
        } else if (0xE1 <= b && b <= 0xEC) || b == 0xEE || b == 0xEF {
            if q + 3 <= end && spec_utf8_cont(p, q + 1) && spec_utf8_cont(p, q + 2) {
                spec_utf8_ok(p, q + 3, end)
            } else {
                false
            }
        } else if b == 0xED {
            if q + 3 <= end && 0x80 <= p[q + 1] && p[q + 1] <= 0x9F && spec_utf8_cont(p, q + 2) {
                spec_utf8_ok(p, q + 3, end)
            } else {
                false
            }
        } else if b == 0xF0 {
            if q + 4 <= end && 0x90 <= p[q + 1] && p[q + 1] <= 0xBF && spec_utf8_cont(p, q + 2)
                && spec_utf8_cont(p, q + 3) {
                spec_utf8_ok(p, q + 4, end)
            } else {
                false
            }
        } else if 0xF1 <= b && b <= 0xF3 {
            if q + 4 <= end && spec_utf8_cont(p, q + 1) && spec_utf8_cont(p, q + 2)
                && spec_utf8_cont(p, q + 3) {
                spec_utf8_ok(p, q + 4, end)
            } else {
                false
            }
        } else if b == 0xF4 {
            if q + 4 <= end && 0x80 <= p[q + 1] && p[q + 1] <= 0x8F && spec_utf8_cont(p, q + 2)
                && spec_utf8_cont(p, q + 3) {
                spec_utf8_ok(p, q + 4, end)
            } else {
                false
            }
        } else {
            false
        }
    }
}

/// A UTF-8 continuation byte.
pub open spec fn spec_utf8_cont(p: Seq<u8>, i: int) -> bool {
    0x80 <= p[i] && p[i] <= 0xBF
}

/// Walks one name the way the parser collects its labels — following
/// compression pointers, which must point strictly backward, with the
/// parser's own caps on label length and total name size — and reports
/// whether every collected label is valid UTF-8, so that rendering the name
/// cannot fail. `None` where the parser would stop the whole parse with an
/// error; the running size is clamped at its cap, which the parser's
/// over-the-cap check makes equivalent to the exact sum.
pub open spec fn spec_name_chain(p: Seq<u8>, pos: int, limit: int, size: int) -> Option<bool>
    recommends
        limit <= p.len(),
    decreases 256 - size, pos,
{
    if pos < 0 || pos >= limit || limit > p.len() || size < 0 {
        None
    } else if size > 255 {
        None
    } else {
        let b = p[pos] as int;
        if b == 0 {
            Some(true)
        } else if b >= 192 {
            if pos + 2 > limit {
                None
            } else {
                let ptr = (b - 192) * 256 + (p[pos + 1] as int);
                if ptr >= pos {
                    None
                } else {
                    spec_name_chain(p, ptr, limit, size)
                }
            }
        } else if pos + 1 + b > limit {
            None
        } else if b > 63 {
            None
        } else {
            let nsize = if size + 1 + b > 256 {
                256
            } else {
                size + 1 + b
            };
            match spec_name_chain(p, pos + 1 + b, limit, nsize) {
                None => None,
                Some(ok) => Some(ok && spec_utf8_ok(p, pos + 1, pos + 1 + b)),
            }
        }
    }
}

/// What one step of record-data parsing does on a given payload: it would
/// index past the end, it returns a parse error (which ends the whole parse
/// normally), or it advances to the given position.
pub ghost enum WireStep {
    WouldPanic,
    ParseFails,
    Advances(int),
}

/// One length-prefixed character string at `q`: reading the length byte at
/// or past the end would index out of bounds; a length of 255, or one
/// reaching past the end, is a parse error; otherwise the string ends at the
/// returned position.
pub open spec fn spec_char_string_step(p: Seq<u8>, q: int, end: int) -> WireStep {
    if q >= end {
        WireStep::WouldPanic
    } else {
        let l = p[q] as int;
        if l < 255 && q + l < end {
            WireStep::Advances(q + 1 + l)
        } else {
            WireStep::ParseFails
        }
    }
}

/// Whether a run of character strings fills `q..end` exactly; each string is
/// read behind a bounds check, so the only outcomes are success and a parse
/// error.
pub open spec fn spec_txt_ok(p: Seq<u8>, q: int, end: int) -> bool
    decreases end - q,
{
    if q >= end {
        true
    } else {
        let l = p[q] as int;
        if l < 255 && q + l < end {
            spec_txt_ok(p, q + 1 + l, end)
        } else {
            false
        }
    }
}

/// Whether a run of option codes (two bytes of code, two of length, then as
/// many bytes of data) fills `q..end` exactly; each is read behind a bounds
/// check.
pub open spec fn spec_opt_ok(p: Seq<u8>, q: int, end: int) -> bool
    decreases end - q,
{
    if q >= end {
        true
    } else if q + 4 > end {
        false
    } else {
        let l = spec_be16(p, q + 2);
        if q + 4 + l <= end {
            spec_opt_ok(p, q + 4 + l, end)
        } else {
            false
        }
    }
}

/// What parsing one record's data of the given type does, with the data
/// running from `rd` to `end`. Mirrors the parser type by type: the
/// fixed-width address, service and protocol layouts are read without bounds
/// checks and would index past `end` when the declared length falls short;
/// name-shaped and checked layouts end in a parse error instead; every type
/// the parser does not know is carried as an opaque blob. The advanced-to
/// position is the one the parser itself continues from — for an empty text
/// record that is one byte past `end`, as the parser counts an empty text as
/// one byte.
pub open spec fn spec_rdata_step(p: Seq<u8>, ty: int, rd: int, end: int) -> WireStep {
    if ty == 1 {  // address, four bytes
        if rd + 4 > end {
            WireStep::WouldPanic
        } else {
            WireStep::Advances(rd + 4)
        }
    } else if ty == 28 {  // address, sixteen bytes
        if rd + 16 > end {
            WireStep::WouldPanic
        } else {
            WireStep::Advances(rd + 16)
        }
    } else if ty == 2 || ty == 3 || ty == 4 || ty == 5 || ty == 7 || ty == 8 || ty == 9 || ty == 12
        || ty == 23 {  // one name
        match spec_skip_name(p, rd, end) {
            None => WireStep::ParseFails,
            Some(e) => WireStep::Advances(e),
        }
    } else if ty == 14 || ty == 17 {  // two names
        match spec_skip_name(p, rd, end) {
            None => WireStep::ParseFails,
            Some(e1) => match spec_skip_name(p, e1, end) {
                None => WireStep::ParseFails,
                Some(e2) => WireStep::Advances(e2),
            },
        }
    } else if ty == 6 {  // two names, then twenty unchecked bytes
        match spec_skip_name(p, rd, end) {
            None => WireStep::ParseFails,
            Some(e1) => match spec_skip_name(p, e1, end) {
                None => WireStep::ParseFails,
                Some(e2) => if e2 + 20 > end {
                    WireStep::WouldPanic
                } else {
                    WireStep::Advances(e2 + 20)
                },
            },
        }
    } else if ty == 15 || ty == 18 || ty == 21 {  // two unchecked bytes, then a name
        if rd + 2 > end {
            WireStep::WouldPanic
        } else {
            match spec_skip_name(p, rd + 2, end) {
                None => WireStep::ParseFails,
                Some(e) => WireStep::Advances(e),
            }
        }
    } else if ty == 33 {  // six unchecked bytes, then a name
        if rd + 6 > end {
            WireStep::WouldPanic
        } else {
            match spec_skip_name(p, rd + 6, end) {
                None => WireStep::ParseFails,
                Some(e) => WireStep::Advances(e),
            }
        }
    } else if ty == 11 {  // five unchecked bytes, then a bit map to the end
        if rd + 5 > end {
            WireStep::WouldPanic
        } else {
            WireStep::Advances(end)
        }
    } else if ty == 13 || ty == 20 {  // two character strings
        match spec_char_string_step(p, rd, end) {
            WireStep::WouldPanic => WireStep::WouldPanic,
            WireStep::ParseFails => WireStep::ParseFails,
            WireStep::Advances(q2) => match spec_char_string_step(p, q2, end) {
                WireStep::WouldPanic => WireStep::WouldPanic,
                WireStep::ParseFails => WireStep::ParseFails,
                WireStep::Advances(q3) => WireStep::Advances(q3),
            },
        }
    } else if ty == 257 {  // one unchecked byte, then two character strings
        if rd + 1 > end {
            WireStep::WouldPanic
        } else {
            match spec_char_string_step(p, rd + 1, end) {
                WireStep::WouldPanic => WireStep::WouldPanic,
                WireStep::ParseFails => WireStep::ParseFails,
                WireStep::Advances(q2) => match spec_char_string_step(p, q2, end) {
                    WireStep::WouldPanic => WireStep::WouldPanic,
                    WireStep::ParseFails => WireStep::ParseFails,
                    WireStep::Advances(q3) => WireStep::Advances(q3),
                },
            }
        }
    } else if ty == 16 {  // character strings to the end; empty counts as one byte
        if rd == end {
            WireStep::Advances(end + 1)
        } else if spec_txt_ok(p, rd, end) {
            WireStep::Advances(end)
        } else {
            WireStep::ParseFails
        }
    } else if ty == 22 {  // twenty bytes behind a bounds check
        if rd + 20 > end {
            WireStep::ParseFails
        } else {
            WireStep::Advances(rd + 20)
        }
    } else if ty == 29 {  // sixteen bytes behind a bounds check, version must be zero
        if rd + 16 > end {
            WireStep::ParseFails
        } else if p[rd] != 0 {
            WireStep::ParseFails
        } else {
            WireStep::Advances(rd + 16)
        }
    } else if ty == 41 {  // option codes to the end, each behind a bounds check
        if spec_opt_ok(p, rd, end) {
            WireStep::Advances(end)
        } else {
            WireStep::ParseFails
        }
    } else {  // opaque blob to the end
        WireStep::Advances(end)
    }
}

/// Whether walking `n` resource records from `off` stays clear of every
/// unchecked read, with the owner names of the first `rn` records — the
/// answer section, whose names are rendered — also required to be
/// renderable. A record whose name or frame does not fit ends the whole
/// parse with an error, which is a normal return.
pub open spec fn spec_records_safe(p: Seq<u8>, off: int, n: int, rn: int) -> bool
    decreases n,
{
    if n <= 0 {
        true
    } else {
        match spec_name_chain(p, off, p.len() as int, 0) {
            None => true,
            Some(name_ok) => if rn > 0 && !name_ok {
                false
            } else {
                match spec_skip_name(p, off, p.len() as int) {
                    None => true,
                    Some(o1) => if o1 + 10 > p.len() {
                        true
                    } else {
                        let ty = spec_be16(p, o1);
                        let rdlen = spec_be16(p, o1 + 8);
                        if o1 + 10 + rdlen > p.len() {
                            true
                        } else {
                            match spec_rdata_step(p, ty, o1 + 10, o1 + 10 + rdlen) {
                                WireStep::WouldPanic => false,
                                WireStep::ParseFails => true,
                                WireStep::Advances(next) => spec_records_safe(
                                    p,
                                    next,
                                    n - 1,
                                    if rn > 0 {
                                        rn - 1
                                    } else {
                                        0
                                    },
                                ),
                            }
                        }
                    },
                }
            },
        }
    }
}

/// The position after `n` questions starting at `off`, each a name and four
/// bytes, together with whether every question name — all of them are
/// rendered — is renderable; `None` where the parser would stop with an
/// error.
pub open spec fn spec_questions_scan(p: Seq<u8>, off: int, n: int) -> Option<(int, bool)>
    decreases n,
{
    if n <= 0 {
        Some((off, true))
    } else {
        match spec_name_chain(p, off, p.len() as int, 0) {
            None => None,
            Some(name_ok) => match spec_skip_name(p, off, p.len() as int) {
                None => None,
                Some(e) => if e + 4 > p.len() {
                    None
                } else {
                    match spec_questions_scan(p, e + 4, n - 1) {
                        None => None,
                        Some(rest) => Some((rest.0, name_ok && rest.1)),
                    }
                },
            },
        }
    }
}

/// Whether the payload is admitted to the outside DNS parser: on an admitted
/// payload every read the parser makes is covered and every rendered name is
/// valid UTF-8, so it returns normally — with a message or with an error of
/// its own.
pub open spec fn spec_dns_wire_safe(p: Seq<u8>) -> bool {
    if p.len() < 12 {
        true
    } else {
        let qd = spec_be16(p, 4);
        let an = spec_be16(p, 6);
        let count = an + spec_be16(p, 8) + spec_be16(p, 10);
        match spec_questions_scan(p, 12, qd) {
            None => true,
            Some(scan) => if !scan.1 {
                false
            } else {
                spec_records_safe(p, scan.0, count, an)
            },
        }
    }
}

fn skip_name(p: &Vec<u8>, pos: usize, limit: usize) -> (r: Option<usize>)
    requires
        limit <= p@.len(),
    ensures
        match r {
            Some(e) => spec_skip_name(p@, pos as int, limit as int) == Some(e as int) && e
                <= limit,
            None => spec_skip_name(p@, pos as int, limit as int) is None,
        },
{
    if pos >= limit {
        return None;
    }
    let mut q: usize = pos;
    loop
        invariant
            q < limit,
            limit <= p@.len(),
            spec_skip_name(p@, pos as int, limit as int) == spec_skip_name(
                p@,
                q as int,
                limit as int,
            ),
        decreases limit - q,
    {
        let b = p[q];
        if b == 0 {
            return Some(q + 1);
        }
        if b >= 192 {
            if limit - q >= 2 {
                return Some(q + 2);
            } else {
                return None;
            }
        }
        if (b as usize) <= limit - q - 1 {
            q = q + 1 + (b as usize);
            if q >= limit {
                return None;
            }
        } else {
            return None;
        }
    }
}

enum WireScan {
    WouldPanic,
    ParseFails,
    Advances(usize),
    AdvancesBeyond,
}

fn utf8_ok(p: &Vec<u8>, start: usize, end: usize) -> (r: bool)
    requires
        start <= end <= p@.len(),
    ensures
        r == spec_utf8_ok(p@, start as int, end as int),
{
    let mut q: usize = start;
    loop
        invariant
            q <= end,
            end <= p@.len(),
            spec_utf8_ok(p@, start as int, end as int) == spec_utf8_ok(p@, q as int, end as int),
        decreases end - q,
    {
        if q == end {
            return true;
        }
        let b = p[q];
        if b < 0x80 {
            q = q + 1;
        } else if 0xC2 <= b && b <= 0xDF {
            if end - q >= 2 && 0x80 <= p[q + 1] && p[q + 1] <= 0xBF {
                q = q + 2;
            } else {
                return false;
            }
        } else if b == 0xE0 {
            if end - q >= 3 && 0xA0 <= p[q + 1] && p[q + 1] <= 0xBF && 0x80 <= p[q + 2] && p[q + 2]
                <= 0xBF {
                q = q + 3;
            } else {
                return false;
            }
        } else if (0xE1 <= b && b <= 0xEC) || b == 0xEE || b == 0xEF {
            if end - q >= 3 && 0x80 <= p[q + 1] && p[q + 1] <= 0xBF && 0x80 <= p[q + 2] && p[q + 2]
                <= 0xBF {
                q = q + 3;
            } else {
                return false;
            }
        } else if b == 0xED {
            if end - q >= 3 && 0x80 <= p[q + 1] && p[q + 1] <= 0x9F && 0x80 <= p[q + 2] && p[q + 2]
                <= 0xBF {
                q = q + 3;
            } else {
                return false;
            }
        } else if b == 0xF0 {
            if end - q >= 4 && 0x90 <= p[q + 1] && p[q + 1] <= 0xBF && 0x80 <= p[q + 2] && p[q + 2]
                <= 0xBF && 0x80 <= p[q + 3] && p[q + 3] <= 0xBF {
                q = q + 4;
            } else {
                return false;
            }
        } else if 0xF1 <= b && b <= 0xF3 {
            if end - q >= 4 && 0x80 <= p[q + 1] && p[q + 1] <= 0xBF && 0x80 <= p[q + 2] && p[q + 2]
                <= 0xBF && 0x80 <= p[q + 3] && p[q + 3] <= 0xBF {
                q = q + 4;
            } else {
                return false;
            }
        } else if b == 0xF4 {
            if end - q >= 4 && 0x80 <= p[q + 1] && p[q + 1] <= 0x8F && 0x80 <= p[q + 2] && p[q + 2]
                <= 0xBF && 0x80 <= p[q + 3] && p[q + 3] <= 0xBF {
                q = q + 4;
            } else {
                return false;
            }
        } else {
            return false;
        }
    }
}

fn name_chain(p: &Vec<u8>, pos: usize, limit: usize) -> (r: Option<bool>)
    requires
        limit <= p@.len(),
    ensures
        match r {
            Some(ok) => spec_name_chain(p@, pos as int, limit as int, 0) == Some(ok),
            None => spec_name_chain(p@, pos as int, limit as int, 0) is None,
        },
{
    let mut q: usize = pos;
    let mut size: usize = 0;
    let mut acc = true;
    loop
        invariant
            limit <= p@.len(),
            size <= 256,
            ({
                let full = spec_name_chain(p@, pos as int, limit as int, 0);
                match spec_name_chain(p@, q as int, limit as int, size as int) {
                    None => full is None,
                    Some(ok) => full == Some(ok && acc),
                }
            }),
        decreases 256 - size, q,
    {
        if q >= limit || size > 255 {
            return None;
        }
        let b = p[q];
        if b == 0 {
            return Some(acc);
        }
        if b >= 192 {
            if limit - q < 2 {
                return None;
            }
            let ptr = ((b - 192) as usize) * 256 + (p[q + 1] as usize);
            if ptr >= q {
                return None;
            }
            q = ptr;
        } else {
            let blen = b as usize;
            if blen > limit - q - 1 {
                return None;
            }
            if blen > 63 {
                return None;
            }
            let lab_ok = utf8_ok(p, q + 1, q + 1 + blen);
            acc = acc && lab_ok;
            size = if size + 1 + blen > 256 {
                256
            } else {
                size + 1 + blen
            };
            q = q + 1 + blen;
        }
    }
}

fn char_string_step(p: &Vec<u8>, q: usize, end: usize) -> (r: WireScan)
    requires
        end <= p@.len(),
    ensures
        ({
            let s = spec_char_string_step(p@, q as int, end as int);
            match r {
                WireScan::WouldPanic => s is WouldPanic,
                WireScan::ParseFails => s is ParseFails,
                WireScan::Advances(x) => s == WireStep::Advances(x as int),
                WireScan::AdvancesBeyond => false,
            }
        }),
{
    if q >= end {
        WireScan::WouldPanic
    } else {
        let l = p[q] as usize;
        if l < 255 && l < end - q {
            WireScan::Advances(q + 1 + l)
        } else {
            WireScan::ParseFails
        }
    }
}

fn txt_ok(p: &Vec<u8>, start: usize, end: usize) -> (r: bool)
    requires
        start <= end <= p@.len(),
    ensures
        r == spec_txt_ok(p@, start as int, end as int),
{
    let mut q: usize = start;
    loop
        invariant
            q <= end,
            end <= p@.len(),
            spec_txt_ok(p@, start as int, end as int) == spec_txt_ok(p@, q as int, end as int),
        decreases end - q,
    {
        if q == end {
            return true;
        }
        let l = p[q] as usize;
        if l < 255 && l < end - q {
            q = q + 1 + l;
        } else {
            return false;
        }
    }
}

fn opt_ok(p: &Vec<u8>, start: usize, end: usize) -> (r: bool)
    requires
        start <= end <= p@.len(),
    ensures
        r == spec_opt_ok(p@, start as int, end as int),
{
    let mut q: usize = start;
    loop
        invariant
            q <= end,
            end <= p@.len(),
            spec_opt_ok(p@, start as int, end as int) == spec_opt_ok(p@, q as int, end as int),
        decreases end - q,
    {
        if q == end {
            return true;
        }
        if end - q < 4 {
            return false;
        }
        let l = (p[q + 2] as usize) * 256 + (p[q + 3] as usize);
        if l <= end - q - 4 {
            q = q + 4 + l;
        } else {
            return false;
        }
    }
}

fn rdata_step(p: &Vec<u8>, ty: usize, rd: usize, end: usize) -> (r: WireScan)
    requires
        rd <= end <= p@.len(),
    ensures
        ({
            let s = spec_rdata_step(p@, ty as int, rd as int, end as int);
            match r {
                WireScan::WouldPanic => s is WouldPanic,
                WireScan::ParseFails => s is ParseFails,
                WireScan::Advances(x) => s == WireStep::Advances(x as int),
                WireScan::AdvancesBeyond => s is Advances && s->Advances_0 > p@.len(),
            }
        }),
{
    if ty == 1 {
        if end - rd < 4 {
            WireScan::WouldPanic
        } else {
            WireScan::Advances(rd + 4)
        }
    } else if ty == 28 {
        if end - rd < 16 {
            WireScan::WouldPanic
        } else {
            WireScan::Advances(rd + 16)
        }
    } else if ty == 2 || ty == 3 || ty == 4 || ty == 5 || ty == 7 || ty == 8 || ty == 9 || ty == 12
        || ty == 23 {
        match skip_name(p, rd, end) {
            None => WireScan::ParseFails,
            Some(e) => WireScan::Advances(e),
        }
    } else if ty == 14 || ty == 17 {
        match skip_name(p, rd, end) {
            None => WireScan::ParseFails,
            Some(e1) => match skip_name(p, e1, end) {
                None => WireScan::ParseFails,
                Some(e2) => WireScan::Advances(e2),
            },
        }
    } else if ty == 6 {
        match skip_name(p, rd, end) {
            None => WireScan::ParseFails,
            Some(e1) => match skip_name(p, e1, end) {
                None => WireScan::ParseFails,
                Some(e2) => if end - e2 < 20 {
                    WireScan::WouldPanic
                } else {
                    WireScan::Advances(e2 + 20)
                },
            },
        }
    } else if ty == 15 || ty == 18 || ty == 21 {
        if end - rd < 2 {
            WireScan::WouldPanic
        } else {
            match skip_name(p, rd + 2, end) {
                None => WireScan::ParseFails,
                Some(e) => WireScan::Advances(e),
            }
        }
    } else if ty == 33 {
        if end - rd < 6 {
            WireScan::WouldPanic
        } else {
            match skip_name(p, rd + 6, end) {
                None => WireScan::ParseFails,
                Some(e) => WireScan::Advances(e),
            }
        }
    } else if ty == 11 {
        if end - rd < 5 {
            WireScan::WouldPanic
        } else {
            WireScan::Advances(end)
        }
    } else if ty == 13 || ty == 20 {
        match char_string_step(p, rd, end) {
            WireScan::Advances(q2) => char_string_step(p, q2, end),
            other => other,
        }
    } else if ty == 257 {
        if rd == end {
            WireScan::WouldPanic
        } else {
            match char_string_step(p, rd + 1, end) {
                WireScan::Advances(q2) => char_string_step(p, q2, end),
                other => other,
            }
        }
    } else if ty == 16 {
        if rd == end {
            if end == p.len() {
                WireScan::AdvancesBeyond
            } else {
                WireScan::Advances(end + 1)
            }
        } else if txt_ok(p, rd, end) {
            WireScan::Advances(end)
        } else {
            WireScan::ParseFails
        }
    } else if ty == 22 {
        if end - rd < 20 {
            WireScan::ParseFails
        } else {
            WireScan::Advances(rd + 20)
        }
    } else if ty == 29 {
        if end - rd < 16 {
            WireScan::ParseFails
        } else if p[rd] != 0 {
            WireScan::ParseFails
        } else {
            WireScan::Advances(rd + 16)
        }
    } else if ty == 41 {
        if opt_ok(p, rd, end) {
            WireScan::Advances(end)
        } else {
            WireScan::ParseFails
        }
    } else {
        WireScan::Advances(end)
    }
}

fn records_safe_from(p: &Vec<u8>, start: usize, count: usize, render_count: usize) -> (r: bool)
    ensures
        r == spec_records_safe(p@, start as int, count as int, render_count as int),
{
    let n = p.len();
    let mut off: usize = start;
    let mut k: usize = count;
    let mut rk: usize = render_count;
    loop
        invariant
            n == p@.len(),
            spec_records_safe(p@, off as int, k as int, rk as int) == spec_records_safe(
                p@,
                start as int,
                count as int,
                render_count as int,
            ),
        decreases k,
    {
        if k == 0 {
            return true;
        }
        match name_chain(p, off, n) {
            None => {
                return true;
            },
            Some(name_ok) => {
                if rk > 0 && !name_ok {
                    return false;
                }
            },
        }
        match skip_name(p, off, n) {
            None => {
                return true;
            },
            Some(o1) => {
                if n - o1 < 10 {
                    return true;
                }
                let ty = (p[o1] as usize) * 256 + (p[o1 + 1] as usize);
                let rdlen = (p[o1 + 8] as usize) * 256 + (p[o1 + 9] as usize);
                if n - (o1 + 10) < rdlen {
                    return true;
                }
                match rdata_step(p, ty, o1 + 10, o1 + 10 + rdlen) {
                    WireScan::WouldPanic => {
                        return false;
                    },
                    WireScan::ParseFails => {
                        return true;
                    },
                    WireScan::AdvancesBeyond => {
                        proof {
                            let s = spec_rdata_step(
                                p@,
                                ty as int,
                                o1 + 10,
                                o1 + 10 + rdlen,
                            );
                            assert(spec_records_safe(
                                p@,
                                s->Advances_0,
                                k - 1,
                                if rk > 0 {
                                    rk - 1
                                } else {
                                    0
                                },
                            ));
                        }
                        return true;
                    },
                    WireScan::Advances(next) => {
                        off = next;
                        k = k - 1;
                        if rk > 0 {
                            rk = rk - 1;
                        }
                    },
                }
            },
        }
    }
}

fn questions_scan(p: &Vec<u8>, start: usize, count: usize) -> (r: Option<(usize, bool)>)
    ensures
        match r {
            Some(s) => spec_questions_scan(p@, start as int, count as int) == Some(
                (s.0 as int, s.1),
            ),
            None => spec_questions_scan(p@, start as int, count as int) is None,
        },
{
    let n = p.len();
    let mut off: usize = start;
    let mut k: usize = count;
    let mut acc = true;
    loop
        invariant
            n == p@.len(),
            ({
                let full = spec_questions_scan(p@, start as int, count as int);
                match spec_questions_scan(p@, off as int, k as int) {
                    None => full is None,
                    Some(rest) => full == Some((rest.0, rest.1 && acc)),
                }
            }),
        decreases k,
    {
        if k == 0 {
            return Some((off, acc));
        }
        let name_ok = match name_chain(p, off, n) {
            None => {
                return None;
            },
            Some(ok) => ok,
        };
        match skip_name(p, off, n) {
            None => {
                return None;
            },
            Some(e) => {
                if n - e < 4 {
                    return None;
                }
                acc = acc && name_ok;
                off = e + 4;
                k = k - 1;
            },
        }
    }
}

/// Decides whether a payload may be handed to the outside DNS parser: on an
/// admitted payload every read the parser makes is covered, every rendered
/// name is valid UTF-8, and it returns normally.
pub fn dns_wire_safe(payload: &Vec<u8>) -> (r: bool)
    ensures
        r == spec_dns_wire_safe(payload@),
{
    let n = payload.len();
    if n < 12 {
        return true;
    }
    let qd = (payload[4] as usize) * 256 + (payload[5] as usize);
    let an = (payload[6] as usize) * 256 + (payload[7] as usize);
    let ns = (payload[8] as usize) * 256 + (payload[9] as usize);
    let ar = (payload[10] as usize) * 256 + (payload[11] as usize);
    match questions_scan(payload, 12, qd) {
        None => true,
        Some((off, questions_ok)) => {
            if !questions_ok {
                return false;
            }
            records_safe_from(payload, off, an + ns + ar, an)
        },
    }
}

} // verus!
