//! Canonical payload encoding shared by the pipeline's producer and consumer.
//!
//! A payload is a fixed number of fields, each an optional string. An absent
//! field is the single tag byte 0; a present field is the tag byte 1, an
//! 8-byte little-endian length, and that many bytes of UTF-8. The decoder
//! accepts exactly the encoder's output and nothing else, which yields the
//! round-trip law at the bottom of this module: parsing an encoding returns
//! the encoded field sequence.

use vstd::prelude::*;
use vstd::utf8::*;
use vstd::string::*;

verus! {

/// The eight little-endian bytes of a 64-bit length.
pub open spec fn u64_le_bytes(n: u64) -> Seq<u8> {
    seq![
        (n & 0xff) as u8,
        ((n >> 8) & 0xff) as u8,
        ((n >> 16) & 0xff) as u8,
        ((n >> 24) & 0xff) as u8,
        ((n >> 32) & 0xff) as u8,
        ((n >> 40) & 0xff) as u8,
        ((n >> 48) & 0xff) as u8,
        ((n >> 56) & 0xff) as u8,
    ]
}

/// The value carried by eight little-endian bytes.
pub open spec fn u64_from_le(b: Seq<u8>) -> u64
    recommends
        b.len() == 8,
{
    (b[0] as u64) | ((b[1] as u64) << 8) | ((b[2] as u64) << 16) | ((b[3] as u64) << 24)
        | ((b[4] as u64) << 32) | ((b[5] as u64) << 40) | ((b[6] as u64) << 48)
        | ((b[7] as u64) << 56)
}

/// Reading back the eight little-endian bytes of a value gives the value.
pub proof fn lemma_u64_le_round_trip(n: u64)
    ensures
        u64_from_le(u64_le_bytes(n)) == n,
{
    assert(((n & 0xff) as u8 as u64) | ((((n >> 8) & 0xff) as u8 as u64) << 8) | ((((n >> 16)
        & 0xff) as u8 as u64) << 16) | ((((n >> 24) & 0xff) as u8 as u64) << 24) | ((((n >> 32)
        & 0xff) as u8 as u64) << 32) | ((((n >> 40) & 0xff) as u8 as u64) << 40) | ((((n >> 48)
        & 0xff) as u8 as u64) << 48) | ((((n >> 56) & 0xff) as u8 as u64) << 56) == n)
        by (bit_vector);
}

/// A length-prefixed byte string: 8-byte little-endian length, then the bytes.
pub open spec fn enc_bytes(b: Seq<u8>) -> Seq<u8> {
    u64_le_bytes(b.len() as u64) + b
}

/// A length-prefixed UTF-8 string.
pub open spec fn enc_str(s: Seq<char>) -> Seq<u8> {
    enc_bytes(encode_utf8(s))
}

/// The string's UTF-8 encoding is short enough for its 64-bit length prefix.
pub open spec fn str_fits(s: Seq<char>) -> bool {
    encode_utf8(s).len() <= u64::MAX
}

/// One optional-string field: tag byte 0 when absent, tag byte 1 and the
/// length-prefixed string when present.
pub open spec fn enc_field(f: Option<Seq<char>>) -> Seq<u8> {
    match f {
        Option::None => seq![0u8],
        Option::Some(s) => seq![1u8] + enc_str(s),
    }
}

pub open spec fn field_fits(f: Option<Seq<char>>) -> bool {
    match f {
        Option::None => true,
        Option::Some(s) => str_fits(s),
    }
}

/// A field sequence, encoded field by field in order.
pub open spec fn enc_fields(fs: Seq<Option<Seq<char>>>) -> Seq<u8>
    decreases fs.len(),
{
    if fs.len() == 0 {
        Seq::empty()
    } else {
        enc_field(fs[0]) + enc_fields(fs.drop_first())
    }
}

pub open spec fn fields_fit(fs: Seq<Option<Seq<char>>>) -> bool {
    forall|i: int| 0 <= i < fs.len() ==> field_fits(#[trigger] fs[i])
}

/// Parse an 8-byte little-endian length at `pos`; the new position follows it.
pub open spec fn parse_u64(b: Seq<u8>, pos: int) -> Option<(u64, int)> {
    if 0 <= pos && pos + 8 <= b.len() {
        Option::Some((u64_from_le(b.subrange(pos, pos + 8)), pos + 8))
    } else {
        Option::None
    }
}

/// Parse a length-prefixed UTF-8 string at `pos`.
pub open spec fn parse_str(b: Seq<u8>, pos: int) -> Option<(Seq<char>, int)> {
    match parse_u64(b, pos) {
        Option::None => Option::None,
        Option::Some((n, p)) => if p + n <= b.len() {
            let chunk = b.subrange(p, p + n as int);
            if valid_utf8(chunk) {
                Option::Some((decode_utf8(chunk), p + n as int))
            } else {
                Option::None
            }
        } else {
            Option::None
        },
    }
}

/// Parse one optional-string field at `pos`.
pub open spec fn parse_field(b: Seq<u8>, pos: int) -> Option<(Option<Seq<char>>, int)> {
    if 0 <= pos && pos < b.len() {
        if b[pos] == 0u8 {
            Option::Some((Option::None, pos + 1))
        } else if b[pos] == 1u8 {
            match parse_str(b, pos + 1) {
                Option::None => Option::None,
                Option::Some((s, p)) => Option::Some((Option::Some(s), p)),
            }
        } else {
            Option::None
        }
    } else {
        Option::None
    }
}

/// Parse exactly `count` fields starting at `pos`.
pub open spec fn parse_fields(b: Seq<u8>, pos: int, count: nat) -> Option<
    (Seq<Option<Seq<char>>>, int),
>
    decreases count,
{
    if count == 0 {
        Option::Some((Seq::empty(), pos))
    } else {
        match parse_field(b, pos) {
            Option::None => Option::None,
            Option::Some((f, p)) => match parse_fields(b, p, (count - 1) as nat) {
                Option::None => Option::None,
                Option::Some((fs, p2)) => Option::Some((seq![f] + fs, p2)),
            },
        }
    }
}

/// Parsing at a position holding an encoded string yields that string.
proof fn lemma_parse_str_enc(b: Seq<u8>, pos: int, s: Seq<char>)
    requires
        0 <= pos,
        pos + enc_str(s).len() <= b.len(),
        b.subrange(pos, pos + enc_str(s).len() as int) =~= enc_str(s),
        str_fits(s),
    ensures
        parse_str(b, pos) == Option::Some((s, pos + enc_str(s).len() as int)),
{
    let eb = encode_utf8(s);
    let l = eb.len() as u64;
    assert(enc_str(s) == u64_le_bytes(l) + eb);
    assert(b.subrange(pos, pos + 8) =~= u64_le_bytes(l)) by {
        assert forall|i: int| 0 <= i < 8 implies b.subrange(pos, pos + 8)[i] == u64_le_bytes(l)[i] by {
            assert(b.subrange(pos, pos + enc_str(s).len() as int)[i] == enc_str(s)[i]);
        }
    }
    lemma_u64_le_round_trip(l);
    assert(parse_u64(b, pos) == Option::Some((l, pos + 8)));
    let chunk = b.subrange(pos + 8, pos + 8 + l as int);
    assert(chunk =~= eb) by {
        assert forall|i: int| 0 <= i < l implies chunk[i] == eb[i] by {
            assert(b.subrange(pos, pos + enc_str(s).len() as int)[8 + i] == enc_str(s)[8 + i]);
        }
    }
    encode_utf8_valid_utf8(s);
    encode_utf8_decode_utf8(s);
}

/// Parsing at a position holding an encoded field yields that field.
proof fn lemma_parse_field_enc(b: Seq<u8>, pos: int, f: Option<Seq<char>>)
    requires
        0 <= pos,
        pos + enc_field(f).len() <= b.len(),
        b.subrange(pos, pos + enc_field(f).len() as int) =~= enc_field(f),
        field_fits(f),
    ensures
        parse_field(b, pos) == Option::Some((f, pos + enc_field(f).len() as int)),
{
    match f {
        Option::None => {
            assert(b.subrange(pos, pos + 1)[0] == enc_field(f)[0]);
            assert(b[pos] == 0u8);
        },
        Option::Some(s) => {
            assert(b.subrange(pos, pos + enc_field(f).len() as int)[0] == enc_field(f)[0]);
            assert(b[pos] == 1u8);
            assert(b.subrange(pos + 1, pos + 1 + enc_str(s).len() as int) =~= enc_str(s)) by {
                assert forall|i: int| 0 <= i < enc_str(s).len() implies b.subrange(
                    pos + 1,
                    pos + 1 + enc_str(s).len() as int,
                )[i] == enc_str(s)[i] by {
                    assert(b.subrange(pos, pos + enc_field(f).len() as int)[1 + i] == enc_field(
                        f,
                    )[1 + i]);
                }
            }
            lemma_parse_str_enc(b, pos + 1, s);
        },
    }
}

/// Parsing at a position holding an encoded field sequence yields it whole.
pub proof fn lemma_parse_enc_fields(b: Seq<u8>, pos: int, fs: Seq<Option<Seq<char>>>)
    requires
        0 <= pos,
        pos + enc_fields(fs).len() <= b.len(),
        b.subrange(pos, pos + enc_fields(fs).len() as int) =~= enc_fields(fs),
        fields_fit(fs),
    ensures
        parse_fields(b, pos, fs.len()) == Option::Some((fs, pos + enc_fields(fs).len() as int)),
    decreases fs.len(),
{
    if fs.len() == 0 {
        assert(fs =~= Seq::<Option<Seq<char>>>::empty());
    } else {
        let f0 = fs[0];
        let l0 = enc_field(f0).len() as int;
        let lr = enc_fields(fs.drop_first()).len() as int;
        assert(enc_fields(fs) == enc_field(f0) + enc_fields(fs.drop_first()));
        assert(b.subrange(pos, pos + l0) =~= enc_field(f0)) by {
            assert forall|i: int| 0 <= i < l0 implies b.subrange(pos, pos + l0)[i] == enc_field(
                f0,
            )[i] by {
                assert(b.subrange(pos, pos + enc_fields(fs).len() as int)[i] == enc_fields(fs)[i]);
            }
        }
        lemma_parse_field_enc(b, pos, f0);
        assert(b.subrange(pos + l0, pos + l0 + lr) =~= enc_fields(fs.drop_first())) by {
            assert forall|i: int| 0 <= i < lr implies b.subrange(pos + l0, pos + l0 + lr)[i]
                == enc_fields(fs.drop_first())[i] by {
                assert(b.subrange(pos, pos + enc_fields(fs).len() as int)[l0 + i] == enc_fields(
                    fs,
                )[l0 + i]);
            }
        }
        assert(fields_fit(fs.drop_first())) by {
            assert forall|i: int| 0 <= i < fs.drop_first().len() implies field_fits(
                #[trigger] fs.drop_first()[i],
            ) by {
                assert(fs.drop_first()[i] == fs[i + 1]);
            }
        }
        lemma_parse_enc_fields(b, pos + l0, fs.drop_first());
        assert(seq![f0] + fs.drop_first() =~= fs);
    }
}

/// Round trip: the decoder's grammar applied to an encoded field sequence
/// returns exactly that sequence, consuming the whole buffer.
pub proof fn lemma_fields_round_trip(fs: Seq<Option<Seq<char>>>)
    requires
        fields_fit(fs),
    ensures
        parse_fields(enc_fields(fs), 0, fs.len()) == Option::Some(
            (fs, enc_fields(fs).len() as int),
        ),
{
    let b = enc_fields(fs);
    assert(b.subrange(0, b.len() as int) =~= b);
    lemma_parse_enc_fields(b, 0, fs);
}

/// Relies on std's `String::from_utf8`: it succeeds exactly when the bytes
/// are valid UTF-8, and the returned string holds those very bytes. Stated
/// with vstd's UTF-8 model, as vstd states `str::from_utf8_unchecked`.
#[verifier::external_body]
fn string_from_utf8(bytes: Vec<u8>) -> (r: Option<String>)
    ensures
        r is Some <==> valid_utf8(bytes@),
        r is Some ==> encode_utf8(r.unwrap()@) == bytes@,
{
    match String::from_utf8(bytes) {
        Ok(s) => Some(s),
        Err(_) => None,
    }
}

/// Append the eight little-endian bytes of `n`.
pub fn append_u64_le(out: &mut Vec<u8>, n: u64)
    ensures
        final(out)@ =~= old(out)@ + u64_le_bytes(n),
{
    out.push((n & 0xff) as u8);
    out.push(((n >> 8) & 0xff) as u8);
    out.push(((n >> 16) & 0xff) as u8);
    out.push(((n >> 24) & 0xff) as u8);
    out.push(((n >> 32) & 0xff) as u8);
    out.push(((n >> 40) & 0xff) as u8);
    out.push(((n >> 48) & 0xff) as u8);
    out.push(((n >> 56) & 0xff) as u8);
}

/// Append one encoded field.
pub fn append_field(out: &mut Vec<u8>, f: &Option<String>)
    ensures
        final(out)@ =~= old(out)@ + enc_field(f.deep_view()),
{
    match f {
        Option::None => {
            out.push(0u8);
        },
        Option::Some(s) => {
            out.push(1u8);
            let mut bytes = s.as_str().as_bytes_vec();
            append_u64_le(out, bytes.len() as u64);
            out.append(&mut bytes);
        },
    }
}

/// `enc_fields` grows by one encoded field when a field is appended.
proof fn lemma_enc_fields_snoc(fs: Seq<Option<Seq<char>>>, f: Option<Seq<char>>)
    ensures
        enc_fields(fs.push(f)) =~= enc_fields(fs) + enc_field(f),
    decreases fs.len(),
{
    if fs.len() == 0 {
        assert(fs.push(f)[0] == f);
        assert(fs.push(f).drop_first() =~= Seq::<Option<Seq<char>>>::empty());
        assert(enc_fields(fs.push(f)) == enc_field(f) + enc_fields(
            Seq::<Option<Seq<char>>>::empty(),
        ));
        assert(enc_fields(Seq::<Option<Seq<char>>>::empty()) == Seq::<u8>::empty());
    } else {
        assert(fs.push(f)[0] == fs[0]);
        assert(fs.push(f).drop_first() =~= fs.drop_first().push(f));
        lemma_enc_fields_snoc(fs.drop_first(), f);
        assert(enc_fields(fs.push(f)) == enc_field(fs[0]) + enc_fields(fs.drop_first().push(f)));
        assert(enc_fields(fs) == enc_field(fs[0]) + enc_fields(fs.drop_first()));
    }
}

/// Encode a field sequence.
pub fn encode_fields(fs: &Vec<Option<String>>) -> (out: Vec<u8>)
    ensures
        out@ =~= enc_fields(fs.deep_view()),
{
    let mut out: Vec<u8> = Vec::new();
    let mut i: usize = 0;
    while i < fs.len()
        invariant
            i <= fs.len(),
            out@ =~= enc_fields(fs.deep_view().take(i as int)),
        decreases fs.len() - i,
    {
        append_field(&mut out, &fs[i]);
        proof {
            lemma_enc_fields_snoc(fs.deep_view().take(i as int), fs.deep_view()[i as int]);
            assert(fs.deep_view().take(i + 1 as int) =~= fs.deep_view().take(i as int).push(
                fs.deep_view()[i as int],
            ));
        }
        i = i + 1;
    }
    proof {
        assert(fs.deep_view().take(fs.len() as int) =~= fs.deep_view());
    }
    out
}

/// Read an 8-byte little-endian length at `pos`; mirrors `parse_u64`.
pub fn read_u64_le(b: &Vec<u8>, pos: usize) -> (r: Option<(u64, usize)>)
    ensures
        r is Some <==> parse_u64(b@, pos as int) is Some,
        r is Some ==> {
            &&& r.unwrap().0 == parse_u64(b@, pos as int).unwrap().0
            &&& r.unwrap().1 as int == parse_u64(b@, pos as int).unwrap().1
            &&& r.unwrap().1 <= b@.len()
        },
{
    if b.len() >= 8 && pos <= b.len() - 8 {
        let n = (b[pos] as u64) | ((b[pos + 1] as u64) << 8) | ((b[pos + 2] as u64) << 16) | ((b[pos
            + 3] as u64) << 24) | ((b[pos + 4] as u64) << 32) | ((b[pos + 5] as u64) << 40) | ((b[pos
            + 6] as u64) << 48) | ((b[pos + 7] as u64) << 56);
        proof {
            let sub = b@.subrange(pos as int, pos as int + 8);
            assert(sub[0] == b@[pos as int]);
            assert(sub[1] == b@[pos as int + 1]);
            assert(sub[2] == b@[pos as int + 2]);
            assert(sub[3] == b@[pos as int + 3]);
            assert(sub[4] == b@[pos as int + 4]);
            assert(sub[5] == b@[pos as int + 5]);
            assert(sub[6] == b@[pos as int + 6]);
            assert(sub[7] == b@[pos as int + 7]);
        }
        Some((n, pos + 8))
    } else {
        None
    }
}

/// Read a length-prefixed UTF-8 string at `pos`; mirrors `parse_str`.
pub fn read_str(b: &Vec<u8>, pos: usize) -> (r: Option<(String, usize)>)
    ensures
        r is Some <==> parse_str(b@, pos as int) is Some,
        r is Some ==> {
            &&& r.unwrap().0@ == parse_str(b@, pos as int).unwrap().0
            &&& r.unwrap().1 as int == parse_str(b@, pos as int).unwrap().1
            &&& r.unwrap().1 <= b@.len()
        },
{
    match read_u64_le(b, pos) {
        None => None,
        Some((n, p)) => {
            if n <= (b.len() - p) as u64 {
                let len = n as usize;
                let mut chunk: Vec<u8> = Vec::new();
                let mut i: usize = 0;
                while i < len
                    invariant
                        i <= len,
                        p + len <= b@.len(),
                        b@.len() <= usize::MAX,
                        chunk@ =~= b@.subrange(p as int, p as int + i as int),
                    decreases len - i,
                {
                    chunk.push(b[p + i]);
                    proof {
                        assert(chunk@ =~= b@.subrange(p as int, p as int + i as int + 1));
                    }
                    i = i + 1;
                }
                match string_from_utf8(chunk) {
                    Some(s) => {
                        proof {
                            encode_utf8_decode_utf8(s@);
                        }
                        Some((s, p + len))
                    },
                    None => None,
                }
            } else {
                None
            }
        },
    }
}

/// Read one optional-string field at `pos`; mirrors `parse_field`.
pub fn read_field(b: &Vec<u8>, pos: usize) -> (r: Option<(Option<String>, usize)>)
    ensures
        r is Some <==> parse_field(b@, pos as int) is Some,
        r is Some ==> {
            &&& r.unwrap().0.deep_view() == parse_field(b@, pos as int).unwrap().0
            &&& r.unwrap().1 as int == parse_field(b@, pos as int).unwrap().1
            &&& r.unwrap().1 <= b@.len()
        },
{
    if pos < b.len() {
        let tag = b[pos];
        if tag == 0 {
            Some((None, pos + 1))
        } else if tag == 1 {
            match read_str(b, pos + 1) {
                Some((s, p)) => Some((Some(s), p)),
                None => None,
            }
        } else {
            None
        }
    } else {
        None
    }
}

/// Read exactly `count` fields at `pos`; mirrors `parse_fields`.
pub fn read_fields(b: &Vec<u8>, pos: usize, count: usize) -> (r: Option<
    (Vec<Option<String>>, usize),
>)
    requires
        pos <= b@.len(),
    ensures
        r is Some <==> parse_fields(b@, pos as int, count as nat) is Some,
        r is Some ==> {
            &&& r.unwrap().0.deep_view() =~= parse_fields(b@, pos as int, count as nat).unwrap().0
            &&& r.unwrap().0@.len() == count
            &&& r.unwrap().1 as int == parse_fields(b@, pos as int, count as nat).unwrap().1
            &&& r.unwrap().1 <= b@.len()
        },
    decreases count,
{
    if count == 0 {
        Some((Vec::new(), pos))
    } else {
        match read_field(b, pos) {
            None => None,
            Some((f, p)) => {
                match read_fields(b, p, count - 1) {
                    None => None,
                    Some((mut fs, p2)) => {
                        fs.insert(0, f);
                        proof {
                            let pf = parse_field(b@, pos as int).unwrap().0;
                            let rest = parse_fields(
                                b@,
                                p as int,
                                (count - 1) as nat,
                            ).unwrap().0;
                            assert(fs.deep_view() =~= seq![pf] + rest);
                        }
                        Some((fs, p2))
                    },
                }
            },
        }
    }
}

/// Decode a whole buffer as exactly `count` fields with no trailing bytes.
pub fn decode_fields(b: &Vec<u8>, count: usize) -> (r: Option<Vec<Option<String>>>)
    ensures
        r is Some <==> (parse_fields(b@, 0, count as nat) is Some && parse_fields(
            b@,
            0,
            count as nat,
        ).unwrap().1 == b@.len()),
        r is Some ==> r.unwrap().deep_view() =~= parse_fields(b@, 0, count as nat).unwrap().0
            && r.unwrap()@.len() == count,
{
    match read_fields(b, 0, count) {
        None => None,
        Some((fs, p)) => {
            if p == b.len() {
                Some(fs)
            } else {
                None
            }
        },
    }
}

} // verus!
