//! Recursive-length-prefix (RLP) codec.
//!
//! A byte string of length one whose byte is below `0x80` encodes as
//! itself; otherwise its header announces its length (one byte for lengths
//! up to 55, else a length-of-length byte followed by the minimal
//! big-endian length).  A list concatenates its elements' encodings and
//! prefixes the payload with the same header scheme shifted to `0xc0`.
//!
//! The only shape this codec consumes is a list of byte strings; the
//! decoder is strict: it rejects truncated buffers, trailing bytes, and
//! every non-canonical header.

use vstd::prelude::*;
use vstd::arithmetic::power::pow;
use crate::bytes::{
    be_nat, min_be, clone_bytes, lemma_be_nat_bound, lemma_min_be_value, lemma_min_be_len,
    lemma_min_be_canon, lemma_pow256_8, u64_to_bytes, sub_bytes,
};
use crate::errors::DecodeError;

verus! {

// ------------------------------------------------------------------
// Specification-level encoder
// ------------------------------------------------------------------

/// Encoding of one byte string.
pub open spec fn rlp_str(s: Seq<u8>) -> Seq<u8> {
    if s.len() == 1 && s[0] < 0x80 {
        s
    } else if s.len() <= 55 {
        seq![(0x80 + s.len()) as u8] + s
    } else {
        seq![(0xb7 + min_be(s.len()).len()) as u8] + min_be(s.len()) + s
    }
}

/// Concatenation of the encodings of a sequence of byte strings.
pub open spec fn rlp_payload(items: Seq<Seq<u8>>) -> Seq<u8>
    decreases items.len(),
{
    if items.len() == 0 {
        Seq::empty()
    } else {
        rlp_str(items[0]) + rlp_payload(items.drop_first())
    }
}

/// List header for a payload of `n` bytes.
pub open spec fn rlp_list_header(n: nat) -> Seq<u8> {
    if n <= 55 {
        seq![(0xc0 + n) as u8]
    } else {
        seq![(0xf7 + min_be(n).len()) as u8] + min_be(n)
    }
}

/// Encoding of a list of byte strings.
pub open spec fn rlp_list(items: Seq<Seq<u8>>) -> Seq<u8> {
    rlp_list_header(rlp_payload(items).len()) + rlp_payload(items)
}

// ------------------------------------------------------------------
// Specification-level parser
// ------------------------------------------------------------------

/// Parse one byte-string item of `buf` starting at `pos`, reading no byte
/// at `end` or beyond.  Returns the content and the position after the
/// item.  Rejects truncation and every header that is not the canonical
/// form of its content; a list header in item position is also refused.
pub open spec fn spec_parse_str(buf: Seq<u8>, pos: nat, end: nat) -> Result<
    (Seq<u8>, nat),
    DecodeError,
> {
    if pos >= end {
        Err(DecodeError::UnexpectedEof)
    } else {
        let h = buf[pos as int];
        if h < 0x80 {
            Ok((seq![h], (pos + 1) as nat))
        } else if h <= 0xb7 {
            let n = (h - 0x80) as nat;
            if pos + 1 + n > end {
                Err(DecodeError::UnexpectedEof)
            } else if n == 1 && buf[pos as int + 1] < 0x80 {
                Err(DecodeError::NonCanonical)
            } else {
                Ok((buf.subrange((pos + 1) as int, (pos + 1 + n) as int), (pos + 1 + n) as nat))
            }
        } else if h <= 0xbf {
            let ll = (h - 0xb7) as nat;
            if pos + 1 + ll > end {
                Err(DecodeError::UnexpectedEof)
            } else {
                let lb = buf.subrange((pos + 1) as int, (pos + 1 + ll) as int);
                let n = be_nat(lb);
                if lb[0] == 0 || n <= 55 {
                    Err(DecodeError::NonCanonical)
                } else if pos + 1 + ll + n > end {
                    Err(DecodeError::UnexpectedEof)
                } else {
                    Ok(
                        (
                            buf.subrange((pos + 1 + ll) as int, (pos + 1 + ll + n) as int),
                            (pos + 1 + ll + n) as nat,
                        ),
                    )
                }
            }
        } else {
            Err(DecodeError::NonCanonical)
        }
    }
}

/// A successful item parse moves strictly forward and stays within `end`.
pub proof fn lemma_parse_str_next(buf: Seq<u8>, pos: nat, end: nat)
    ensures
        spec_parse_str(buf, pos, end) matches Ok(p) ==> pos < p.1 <= end,
{
}

/// Parse the byte-string items of `buf` from `pos` up to exactly `end`.
pub open spec fn spec_parse_items(buf: Seq<u8>, pos: nat, end: nat) -> Result<
    Seq<Seq<u8>>,
    DecodeError,
>
    decreases end - pos,
    when pos <= end
    via spec_parse_items_dec
{
    if pos == end {
        Ok(Seq::empty())
    } else {
        match spec_parse_str(buf, pos, end) {
            Err(e) => Err(e),
            Ok((item, next)) => match spec_parse_items(buf, next, end) {
                Err(e) => Err(e),
                Ok(rest) => Ok(seq![item] + rest),
            },
        }
    }
}

#[via_fn]
proof fn spec_parse_items_dec(buf: Seq<u8>, pos: nat, end: nat) {
    lemma_parse_str_next(buf, pos, end);
}

/// Parse a whole buffer as one list of byte strings.  The list must cover
/// the buffer exactly: trailing bytes are refused, as is a non-list
/// header.
pub open spec fn spec_parse_list(buf: Seq<u8>) -> Result<Seq<Seq<u8>>, DecodeError> {
    if buf.len() == 0 {
        Err(DecodeError::UnexpectedEof)
    } else {
        let h = buf[0];
        if h < 0xc0 {
            Err(DecodeError::NonCanonical)
        } else if h <= 0xf7 {
            let n = (h - 0xc0) as nat;
            if 1 + n > buf.len() {
                Err(DecodeError::UnexpectedEof)
            } else if 1 + n < buf.len() {
                Err(DecodeError::NonCanonical)
            } else {
                spec_parse_items(buf, 1, buf.len())
            }
        } else {
            let ll = (h - 0xf7) as nat;
            if 1 + ll > buf.len() {
                Err(DecodeError::UnexpectedEof)
            } else {
                let lb = buf.subrange(1, (1 + ll) as int);
                let n = be_nat(lb);
                if lb[0] == 0 || n <= 55 {
                    Err(DecodeError::NonCanonical)
                } else if 1 + ll + n > buf.len() {
                    Err(DecodeError::UnexpectedEof)
                } else if 1 + ll + n < buf.len() {
                    Err(DecodeError::NonCanonical)
                } else {
                    spec_parse_items(buf, (1 + ll) as nat, buf.len())
                }
            }
        }
    }
}

// ------------------------------------------------------------------
// Round trip: parsing an encoding yields the encoded value
// ------------------------------------------------------------------

/// A subrange of a known subrange of `buf` is the matching subrange of
/// the known content.
proof fn lemma_subrange_within(buf: Seq<u8>, pos: int, enc: Seq<u8>, a: int, b: int)
    requires
        0 <= pos,
        pos + enc.len() <= buf.len(),
        buf.subrange(pos, pos + enc.len()) == enc,
        pos <= a <= b <= pos + enc.len(),
    ensures
        buf.subrange(a, b) == enc.subrange(a - pos, b - pos),
{
    assert forall|k: int| 0 <= k < b - a implies buf.subrange(a, b)[k] == enc.subrange(
        a - pos,
        b - pos,
    )[k] by {
        assert(enc[a - pos + k] == buf.subrange(pos, pos + enc.len())[a - pos + k]);
    }
    assert(buf.subrange(a, b) =~= enc.subrange(a - pos, b - pos));
}

/// Parsing at the start of an item's encoding yields exactly that item
/// and stops exactly after it, whatever follows.
pub proof fn lemma_parse_str_of_encode(buf: Seq<u8>, pos: nat, end: nat, s: Seq<u8>)
    requires
        s.len() < pow(256, 8),
        pos + rlp_str(s).len() <= end <= buf.len(),
        buf.subrange(pos as int, (pos + rlp_str(s).len()) as int) == rlp_str(s),
    ensures
        spec_parse_str(buf, pos, end) == Ok::<(Seq<u8>, nat), DecodeError>(
            (s, (pos + rlp_str(s).len()) as nat),
        ),
{
    let enc = rlp_str(s);
    let m = enc.len() as int;
    let p = pos as int;
    assert(buf[p] == enc[0]) by {
        lemma_subrange_within(buf, p, enc, p, p + 1);
        assert(buf.subrange(p, p + 1)[0] == enc.subrange(0, 1)[0]);
    }
    if s.len() == 1 && s[0] < 0x80 {
        assert(enc[0] == s[0]);
        assert(seq![buf[p]] =~= s);
    } else if s.len() <= 55 {
        let h = (0x80 + s.len()) as u8;
        assert(enc == seq![h] + s);
        assert(enc[0] == h);
        assert(0x80 <= h <= 0xb7);
        let n = (h - 0x80) as nat;
        assert(n == s.len());
        lemma_subrange_within(buf, p, enc, p + 1, p + 1 + n);
        assert(enc.subrange(1, 1 + n as int) =~= s);
        if n == 1 {
            assert(s[0] >= 0x80);
            assert(buf.subrange(p + 1, p + 2)[0] == buf[p + 1]);
        }
    } else {
        let lenb = min_be(s.len());
        lemma_min_be_value(s.len());
        lemma_min_be_len(s.len(), 8);
        let ll = lenb.len() as int;
        assert(1 <= ll <= 8);
        let h = (0xb7 + ll) as u8;
        assert(enc == seq![h] + lenb + s);
        assert(enc[0] == h);
        assert(0xb8 <= h <= 0xbf);
        assert((h - 0xb7) as nat == ll);
        lemma_subrange_within(buf, p, enc, p + 1, p + 1 + ll);
        assert(enc.subrange(1, 1 + ll) =~= lenb);
        assert(lenb[0] != 0);
        assert(be_nat(lenb) == s.len() > 55);
        lemma_subrange_within(buf, p, enc, p + 1 + ll, p + 1 + ll + s.len());
        assert(enc.subrange(1 + ll, 1 + ll + s.len() as int) =~= s);
    }
}

/// Appending an item appends its encoding to the payload.
pub proof fn lemma_rlp_payload_snoc(items: Seq<Seq<u8>>, item: Seq<u8>)
    ensures
        rlp_payload(items.push(item)) == rlp_payload(items) + rlp_str(item),
    decreases items.len(),
{
    if items.len() == 0 {
        assert(items.push(item)[0] == item);
        assert(items.push(item).drop_first() =~= Seq::<Seq<u8>>::empty());
        assert(rlp_payload(Seq::<Seq<u8>>::empty()) =~= Seq::<u8>::empty());
        assert(rlp_payload(items.push(item)) =~= rlp_payload(items) + rlp_str(item));
    } else {
        lemma_rlp_payload_snoc(items.drop_first(), item);
        assert(items.push(item).drop_first() =~= items.drop_first().push(item));
        assert(items.push(item)[0] == items[0]);
        assert(rlp_str(items[0]) + (rlp_payload(items.drop_first()) + rlp_str(item)) =~= (rlp_str(
            items[0],
        ) + rlp_payload(items.drop_first())) + rlp_str(item));
    }
}

/// Parsing a payload made of item encodings yields exactly those items.
pub proof fn lemma_parse_items_of_payload(buf: Seq<u8>, pos: nat, end: nat, items: Seq<Seq<u8>>)
    requires
        forall|i: int| 0 <= i < items.len() ==> #[trigger] items[i].len() < pow(256, 8),
        pos + rlp_payload(items).len() == end,
        end <= buf.len(),
        buf.subrange(pos as int, end as int) == rlp_payload(items),
    ensures
        spec_parse_items(buf, pos, end) == Ok::<Seq<Seq<u8>>, DecodeError>(items),
    decreases items.len(),
{
    if items.len() == 0 {
        assert(items =~= Seq::<Seq<u8>>::empty());
        assert(pos == end);
    } else {
        let head = items[0];
        let tail = items.drop_first();
        let pay = rlp_payload(items);
        let m0 = rlp_str(head).len() as int;
        let p = pos as int;
        assert(pay == rlp_str(head) + rlp_payload(tail));
        lemma_subrange_within(buf, p, pay, p, p + m0);
        assert(pay.subrange(0, m0) =~= rlp_str(head));
        lemma_parse_str_of_encode(buf, pos, end, head);
        lemma_subrange_within(buf, p, pay, p + m0, end as int);
        assert(pay.subrange(m0, pay.len() as int) =~= rlp_payload(tail));
        lemma_parse_items_of_payload(buf, (pos + m0) as nat, end, tail);
        assert(pos < end);
        assert(spec_parse_str(buf, pos, end) == Ok::<(Seq<u8>, nat), DecodeError>(
            (head, (pos + m0) as nat),
        ));
        assert(spec_parse_items(buf, (pos + m0) as nat, end) == Ok::<Seq<Seq<u8>>, DecodeError>(
            tail,
        ));
        assert(spec_parse_items(buf, pos, end) == Ok::<Seq<Seq<u8>>, DecodeError>(
            seq![head] + tail,
        ));
        assert(seq![head] + tail =~= items);
    }
}

/// Parsing the encoding of a list of byte strings yields exactly that
/// list: the decoder inverts the encoder on every input it can hold.
pub proof fn lemma_parse_list_of_encode(items: Seq<Seq<u8>>)
    requires
        forall|i: int| 0 <= i < items.len() ==> #[trigger] items[i].len() < pow(256, 8),
        rlp_payload(items).len() < pow(256, 8),
    ensures
        spec_parse_list(rlp_list(items)) == Ok::<Seq<Seq<u8>>, DecodeError>(items),
{
    let p = rlp_payload(items);
    let buf = rlp_list(items);
    if p.len() <= 55 {
        let h = (0xc0 + p.len()) as u8;
        assert(buf[0] == h);
        assert(0xc0 <= h <= 0xf7);
        assert((h - 0xc0) as nat == p.len());
        assert(buf.len() == 1 + p.len());
        assert(buf.subrange(1, buf.len() as int) =~= p);
        lemma_parse_items_of_payload(buf, 1, buf.len(), items);
    } else {
        let lenb = min_be(p.len());
        lemma_min_be_value(p.len());
        lemma_min_be_len(p.len(), 8);
        let ll = lenb.len();
        assert(1 <= ll <= 8);
        let h = (0xf7 + ll) as u8;
        assert(buf[0] == h);
        assert(0xf8 <= h <= 0xff);
        assert((h - 0xf7) as nat == ll);
        assert(buf.len() == 1 + ll + p.len());
        assert(buf.subrange(1, (1 + ll) as int) =~= lenb);
        assert(lenb[0] != 0);
        assert(be_nat(lenb) == p.len() > 55);
        assert(buf.subrange((1 + ll) as int, buf.len() as int) =~= p);
        lemma_parse_items_of_payload(buf, (1 + ll) as nat, buf.len(), items);
    }
}

// ------------------------------------------------------------------
// Canonicity: parsing succeeds only on exact encodings
// ------------------------------------------------------------------

/// What an item parse consumed is exactly the item's encoding.
pub proof fn lemma_parse_str_canon(buf: Seq<u8>, pos: nat, end: nat)
    requires
        end <= buf.len(),
        spec_parse_str(buf, pos, end) is Ok,
    ensures
        ({
            let (item, next) = spec_parse_str(buf, pos, end)->Ok_0;
            buf.subrange(pos as int, next as int) == rlp_str(item)
        }),
{
    let (item, next) = spec_parse_str(buf, pos, end)->Ok_0;
    let p = pos as int;
    let h = buf[p];
    if h < 0x80 {
        assert(rlp_str(item) == item);
        assert(buf.subrange(p, p + 1) =~= seq![h]);
    } else if h <= 0xb7 {
        let n = (h - 0x80) as nat;
        assert(item.len() == n <= 55);
        if n == 1 {
            assert(item[0] == buf[p + 1]);
            assert(item[0] >= 0x80);
        }
        assert(rlp_str(item) == seq![(0x80 + n) as u8] + item);
        assert(buf.subrange(p, p + 1 + n) =~= seq![h] + item);
    } else {
        let ll = (h - 0xb7) as nat;
        let lb = buf.subrange(p + 1, p + 1 + ll);
        let n = be_nat(lb);
        assert(lb[0] != 0 && n > 55);
        lemma_min_be_canon(lb);
        assert(min_be(n) == lb);
        assert(rlp_str(item) == seq![(0xb7 + ll) as u8] + lb + item);
        assert(buf.subrange(p, p + 1 + ll + n) =~= seq![h] + lb + item);
    }
}

/// What an items parse consumed is exactly the items' payload.
pub proof fn lemma_parse_items_canon(buf: Seq<u8>, pos: nat, end: nat)
    requires
        pos <= end <= buf.len(),
        spec_parse_items(buf, pos, end) is Ok,
    ensures
        buf.subrange(pos as int, end as int) == rlp_payload(spec_parse_items(buf, pos, end)->Ok_0),
    decreases end - pos,
{
    let items = spec_parse_items(buf, pos, end)->Ok_0;
    if pos == end {
        assert(buf.subrange(pos as int, end as int) =~= Seq::<u8>::empty());
    } else {
        let (item, next) = spec_parse_str(buf, pos, end)->Ok_0;
        lemma_parse_str_next(buf, pos, end);
        lemma_parse_str_canon(buf, pos, end);
        lemma_parse_items_canon(buf, next, end);
        let rest = spec_parse_items(buf, next, end)->Ok_0;
        assert(items == seq![item] + rest);
        assert(items[0] == item);
        assert(items.drop_first() =~= rest);
        assert(rlp_payload(items) == rlp_str(item) + rlp_payload(rest));
        assert(buf.subrange(pos as int, end as int) =~= buf.subrange(pos as int, next as int)
            + buf.subrange(next as int, end as int));
    }
}

/// A buffer the list parser accepts is exactly the encoding of what it
/// returns: together with the round trip, the decoder succeeds on the
/// canonical encodings of lists of byte strings and on nothing else.
pub proof fn lemma_parse_list_canon(buf: Seq<u8>)
    requires
        spec_parse_list(buf) is Ok,
    ensures
        buf == rlp_list(spec_parse_list(buf)->Ok_0),
{
    let items = spec_parse_list(buf)->Ok_0;
    let h = buf[0];
    if h <= 0xf7 {
        let n = (h - 0xc0) as nat;
        assert(1 + n == buf.len());
        lemma_parse_items_canon(buf, 1, buf.len());
        let pay = rlp_payload(items);
        assert(pay == buf.subrange(1, buf.len() as int));
        assert(pay.len() == n <= 55);
        assert(rlp_list(items) == seq![(0xc0 + n) as u8] + pay);
        assert(buf =~= seq![h] + pay);
    } else {
        let ll = (h - 0xf7) as nat;
        let lb = buf.subrange(1, (1 + ll) as int);
        let n = be_nat(lb);
        assert(lb[0] != 0 && n > 55);
        assert(1 + ll + n == buf.len());
        lemma_parse_items_canon(buf, (1 + ll) as nat, buf.len());
        let pay = rlp_payload(items);
        assert(pay == buf.subrange((1 + ll) as int, buf.len() as int));
        assert(pay.len() == n);
        lemma_min_be_canon(lb);
        assert(min_be(n) == lb);
        assert(rlp_list(items) == seq![(0xf7 + ll) as u8] + lb + pay);
        assert(buf =~= seq![h] + lb + pay);
    }
}

// ------------------------------------------------------------------
// Executable encoder
// ------------------------------------------------------------------

/// Encode one byte string.
pub fn encode_bytes(v: &Vec<u8>) -> (r: Vec<u8>)
    ensures
        r@ == rlp_str(v@),
{
    proof {
        lemma_pow256_8();
    }
    if v.len() == 1 && v[0] < 0x80 {
        let r = clone_bytes(v);
        r
    } else if v.len() <= 55 {
        let mut r: Vec<u8> = Vec::new();
        r.push(0x80 + v.len() as u8);
        let mut content = clone_bytes(v);
        r.append(&mut content);
        proof {
            assert(r@ =~= rlp_str(v@));
        }
        r
    } else {
        proof {
            lemma_min_be_value(v@.len());
            lemma_min_be_len(v@.len(), 8);
        }
        let mut lenb = u64_to_bytes(v.len() as u64);
        let mut r: Vec<u8> = Vec::new();
        r.push(0xb7 + lenb.len() as u8);
        r.append(&mut lenb);
        let mut content = clone_bytes(v);
        r.append(&mut content);
        proof {
            assert(r@ =~= rlp_str(v@));
        }
        r
    }
}

/// Encode a list of byte strings.
pub fn encode_list(items: &Vec<Vec<u8>>) -> (r: Vec<u8>)
    ensures
        r@ == rlp_list(items.deep_view()),
{
    proof {
        lemma_pow256_8();
    }
    let mut payload: Vec<u8> = Vec::new();
    let mut i: usize = 0;
    proof {
        assert(items.deep_view().subrange(0, 0) =~= Seq::<Seq<u8>>::empty());
    }
    while i < items.len()
        invariant
            i <= items@.len(),
            items.deep_view().len() == items@.len(),
            payload@ == rlp_payload(items.deep_view().subrange(0, i as int)),
        decreases items@.len() - i,
    {
        let mut enc = encode_bytes(&items[i]);
        proof {
            let dv = items.deep_view();
            assert(items[i as int].deep_view() == dv[i as int]);
            lemma_rlp_payload_snoc(dv.subrange(0, i as int), dv[i as int]);
            assert(dv.subrange(0, i as int).push(dv[i as int]) =~= dv.subrange(0, i + 1));
        }
        payload.append(&mut enc);
        i = i + 1;
    }
    proof {
        assert(items.deep_view().subrange(0, items@.len() as int) =~= items.deep_view());
    }
    let mut r: Vec<u8> = Vec::new();
    if payload.len() <= 55 {
        r.push(0xc0 + payload.len() as u8);
    } else {
        proof {
            lemma_min_be_value(payload@.len());
            lemma_min_be_len(payload@.len(), 8);
        }
        let mut lenb = u64_to_bytes(payload.len() as u64);
        r.push(0xf7 + lenb.len() as u8);
        r.append(&mut lenb);
    }
    r.append(&mut payload);
    proof {
        assert(r@ =~= rlp_list(items.deep_view()));
    }
    r
}

// ------------------------------------------------------------------
// Executable decoder
// ------------------------------------------------------------------

/// Read at most eight big-endian bytes of `buf` from `a` up to `b`.
fn read_be_u64(buf: &Vec<u8>, a: usize, b: usize) -> (r: u64)
    requires
        a <= b <= buf@.len(),
        b - a <= 8,
    ensures
        r == be_nat(buf@.subrange(a as int, b as int)),
{
    proof {
        lemma_pow256_8();
    }
    let mut acc: u64 = 0;
    let mut j = a;
    while j < b
        invariant
            a <= j <= b <= buf@.len(),
            b - a <= 8,
            acc == be_nat(buf@.subrange(a as int, j as int)),
        decreases b - j,
    {
        proof {
            lemma_pow256_8();
            let pre = buf@.subrange(a as int, j as int);
            lemma_be_nat_bound(pre);
            vstd::arithmetic::power::lemma_pow_increases(256, (j - a) as nat, 7);
            assert(buf@.subrange(a as int, j + 1).drop_last() =~= pre);
            assert(buf@.subrange(a as int, j + 1).last() == buf@[j as int]);
            assert(pow(256, 7) * 256 == pow(256, 8)) by {
                vstd::arithmetic::power::lemma_pow1(256);
                vstd::arithmetic::power::lemma_pow_adds(256, 7, 1);
            }
        }
        acc = acc * 256 + buf[j] as u64;
        j = j + 1;
    }
    acc
}

/// Parse one byte-string item of `buf` at `pos`, reading no byte at `end`
/// or beyond; on success returns the content and the position after it.
pub fn parse_str(buf: &Vec<u8>, pos: usize, end: usize) -> (r: Result<
    (Vec<u8>, usize),
    DecodeError,
>)
    requires
        pos <= end <= buf@.len(),
    ensures
        match r {
            Ok(p) => spec_parse_str(buf@, pos as nat, end as nat) == Ok::<
                (Seq<u8>, nat),
                DecodeError,
            >((p.0@, p.1 as nat)) && pos < p.1 <= end,
            Err(e) => spec_parse_str(buf@, pos as nat, end as nat) == Err::<
                (Seq<u8>, nat),
                DecodeError,
            >(e),
        },
{
    if pos >= end {
        return Err(DecodeError::UnexpectedEof);
    }
    let h = buf[pos];
    if h < 0x80 {
        let mut item: Vec<u8> = Vec::new();
        item.push(h);
        proof {
            assert(item@ =~= seq![h]);
        }
        Ok((item, pos + 1))
    } else if h <= 0xb7 {
        let n = (h - 0x80) as usize;
        if n > end - pos - 1 {
            return Err(DecodeError::UnexpectedEof);
        }
        if n == 1 && buf[pos + 1] < 0x80 {
            return Err(DecodeError::NonCanonical);
        }
        let item = sub_bytes(buf, pos + 1, pos + 1 + n);
        Ok((item, pos + 1 + n))
    } else if h <= 0xbf {
        let ll = (h - 0xb7) as usize;
        if ll > end - pos - 1 {
            return Err(DecodeError::UnexpectedEof);
        }
        let first_len_byte = buf[pos + 1];
        let n64 = read_be_u64(buf, pos + 1, pos + 1 + ll);
        if first_len_byte == 0 || n64 <= 55 {
            return Err(DecodeError::NonCanonical);
        }
        if n64 > (end - pos - 1 - ll) as u64 {
            return Err(DecodeError::UnexpectedEof);
        }
        let n = n64 as usize;
        let item = sub_bytes(buf, pos + 1 + ll, pos + 1 + ll + n);
        Ok((item, pos + 1 + ll + n))
    } else {
        Err(DecodeError::NonCanonical)
    }
}

/// Decode a whole buffer as one list of byte strings.
///
/// Succeeds exactly on the canonical encoding of a list: a truncated
/// buffer, trailing bytes, or any non-canonical header is refused with
/// the matching error.
pub fn decode_list(buf: &Vec<u8>) -> (r: Result<Vec<Vec<u8>>, DecodeError>)
    ensures
        match r {
            Ok(items) => spec_parse_list(buf@) == Ok::<Seq<Seq<u8>>, DecodeError>(
                items.deep_view(),
            ),
            Err(e) => spec_parse_list(buf@) == Err::<Seq<Seq<u8>>, DecodeError>(e),
        },
{
    if buf.len() == 0 {
        return Err(DecodeError::UnexpectedEof);
    }
    let h = buf[0];
    let start: usize;
    if h < 0xc0 {
        return Err(DecodeError::NonCanonical);
    } else if h <= 0xf7 {
        let n = (h - 0xc0) as usize;
        if n > buf.len() - 1 {
            return Err(DecodeError::UnexpectedEof);
        }
        if n < buf.len() - 1 {
            return Err(DecodeError::NonCanonical);
        }
        start = 1;
        proof {
            assert(spec_parse_list(buf@) == spec_parse_items(buf@, 1, buf@.len() as nat));
        }
    } else {
        let ll = (h - 0xf7) as usize;
        if ll > buf.len() - 1 {
            return Err(DecodeError::UnexpectedEof);
        }
        let first_len_byte = buf[1];
        let n64 = read_be_u64(buf, 1, 1 + ll);
        if first_len_byte == 0 || n64 <= 55 {
            return Err(DecodeError::NonCanonical);
        }
        if n64 > (buf.len() - 1 - ll) as u64 {
            return Err(DecodeError::UnexpectedEof);
        }
        if (n64 as usize) < buf.len() - 1 - ll {
            return Err(DecodeError::NonCanonical);
        }
        start = 1 + ll;
        proof {
            assert(buf@.subrange(1, (1 + ll) as int)[0] == buf@[1]);
            assert(spec_parse_list(buf@) == spec_parse_items(
                buf@,
                (1 + ll) as nat,
                buf@.len() as nat,
            ));
        }
    }
    let end = buf.len();
    let ghost whole = spec_parse_items(buf@, start as nat, end as nat);
    let mut items: Vec<Vec<u8>> = Vec::new();
    let mut pos = start;
    proof {
        assert(items.deep_view() =~= Seq::<Seq<u8>>::empty());
        match spec_parse_items(buf@, pos as nat, end as nat) {
            Ok(rest) => {
                assert(items.deep_view() + rest =~= rest);
            },
            Err(_) => {},
        }
    }
    while pos < end
        invariant
            start <= pos <= end == buf@.len(),
            whole == spec_parse_items(buf@, start as nat, end as nat),
            spec_parse_list(buf@) == whole,
            match spec_parse_items(buf@, pos as nat, end as nat) {
                Ok(rest) => whole == Ok::<Seq<Seq<u8>>, DecodeError>(items.deep_view() + rest),
                Err(e) => whole == Err::<Seq<Seq<u8>>, DecodeError>(e),
            },
        decreases end - pos,
    {
        match parse_str(buf, pos, end) {
            Err(e) => {
                return Err(e);
            },
            Ok((item, next)) => {
                let ghost old_items = items.deep_view();
                items.push(item);
                proof {
                    assert(item.deep_view() =~= item@);
                    assert(items.deep_view() =~= old_items.push(item@));
                    match spec_parse_items(buf@, next as nat, end as nat) {
                        Ok(rest) => {
                            assert(old_items + (seq![item@] + rest) =~= items.deep_view() + rest);
                        },
                        Err(_) => {},
                    }
                }
                pos = next;
            },
        }
    }
    proof {
        assert(spec_parse_items(buf@, pos as nat, end as nat) == Ok::<Seq<Seq<u8>>, DecodeError>(
            Seq::<Seq<u8>>::empty(),
        ));
        assert(items.deep_view() + Seq::<Seq<u8>>::empty() =~= items.deep_view());
    }
    Ok(items)
}

} // verus!
