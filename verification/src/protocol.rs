use vstd::prelude::*;

verus! {

/// What the dome controller last reported about the dome.
#[derive(Debug, Clone, Copy, PartialEq, Eq, Structural)]
pub enum DomeResponse {
    Unknown,
    Open,
    Closed,
}

impl Default for DomeResponse {
    fn default() -> (r: Self)
        ensures
            r == DomeResponse::Unknown,
    {
        DomeResponse::Unknown
    }
}

/// The report that a single byte carries: `Y` means open, `X` closed,
/// anything else says nothing.
pub open spec fn byte_response(b: u8) -> Option<DomeResponse> {
    if b == 0x59u8 {
        Some(DomeResponse::Open)
    } else if b == 0x58u8 {
        Some(DomeResponse::Closed)
    } else {
        None
    }
}

/// The report of the last byte of `s` that carries one.
pub open spec fn last_response(s: Seq<u8>) -> Option<DomeResponse>
    decreases s.len(),
{
    if s.len() == 0 {
        None
    } else {
        match byte_response(s.last()) {
            Some(r) => Some(r),
            None => last_response(s.drop_last()),
        }
    }
}

/// Scans a chunk of bytes received from the controller; the last `Y` or `X`
/// in byte order decides the report, and a chunk with neither gives `None`.
pub fn parse_response(bytes: &[u8]) -> (result: Option<DomeResponse>)
    ensures
        result == last_response(bytes@),
{
    let mut result: Option<DomeResponse> = None;
    let n: usize = bytes.len();
    let mut i: usize = 0;
    while i < n
        invariant
            n == bytes@.len(),
            i <= n,
            result == last_response(bytes@.take(i as int)),
        decreases n - i,
    {
        let b: u8 = bytes[i];
        proof {
            assert(bytes@.take(i as int + 1).drop_last() =~= bytes@.take(i as int));
            assert(bytes@.take(i as int + 1).last() == b);
        }
        if b == 0x59u8 {
            result = Some(DomeResponse::Open);
        } else if b == 0x58u8 {
            result = Some(DomeResponse::Closed);
        }
        i = i + 1;
    }
    proof {
        assert(bytes@.take(n as int) =~= bytes@);
    }
    result
}

/// Splitting a stream into chunks does not change what it reports: the
/// report of `a` followed by `b` is that of `b` when `b` carries one, and
/// that of `a` otherwise.
pub proof fn lemma_last_response_concat(a: Seq<u8>, b: Seq<u8>)
    ensures
        last_response(a + b) == (match last_response(b) {
            Some(r) => Some(r),
            None => last_response(a),
        }),
    decreases b.len(),
{
    if b.len() == 0 {
        assert(a + b =~= a);
    } else {
        assert((a + b).drop_last() =~= a + b.drop_last());
        assert((a + b).last() == b.last());
        lemma_last_response_concat(a, b.drop_last());
    }
}

/// A report, once made, is only replaced by a later report: if a chunk
/// reports `r`, then so does that chunk followed by bytes that report nothing.
pub proof fn lemma_quiet_suffix_keeps_report(a: Seq<u8>, b: Seq<u8>)
    requires
        last_response(b) is None,
    ensures
        last_response(a + b) == last_response(a),
{
    lemma_last_response_concat(a, b);
}

/// The last byte decides when it carries a report: a chunk ending in `Y`
/// reports open and one ending in `X` closed; a chunk without either byte
/// reports nothing; and other trailing bytes do not change the report.
pub proof fn lemma_last_byte_decides(s: Seq<u8>, b: u8)
    ensures
        last_response(s.push(0x59u8)) == Some(DomeResponse::Open),
        last_response(s.push(0x58u8)) == Some(DomeResponse::Closed),
        b != 0x59u8 && b != 0x58u8 ==> last_response(s.push(b)) == last_response(s),
        (forall|i: int| 0 <= i < s.len() ==> s[i] != 0x59u8 && s[i] != 0x58u8) ==> last_response(s) is None,
    decreases s.len(),
{
    assert(s.push(0x59u8).drop_last() =~= s);
    assert(s.push(0x58u8).drop_last() =~= s);
    assert(s.push(b).drop_last() =~= s);
    if s.len() > 0 && (forall|i: int| 0 <= i < s.len() ==> s[i] != 0x59u8 && s[i] != 0x58u8) {
        let t = s.drop_last();
        assert(t.push(s.last()) =~= s);
        lemma_last_byte_decides(t, s.last());
        assert forall|i: int| 0 <= i < t.len() implies t[i] != 0x59u8 && t[i] != 0x58u8 by {
            assert(t[i] == s[i]);
        }
    }
}

} // verus!
