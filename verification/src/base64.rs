use vstd::prelude::*;

verus! {

/// The base64 symbol of a six-bit value; `url` selects the URL-safe alphabet
/// (`-` and `_` in place of `+` and `/`).
pub open spec fn symbol(v: nat, url: bool) -> char {
    if v < 26 {
        (65 + v) as char
    } else if v < 52 {
        (71 + v) as char
    } else if v < 62 {
        (v - 4) as char
    } else if v == 62 {
        if url { '-' } else { '+' }
    } else {
        if url { '_' } else { '/' }
    }
}

/// Base64 encoding of `b` (RFC 4648): each group of three bytes becomes four
/// symbols; a final group of one or two bytes becomes two or three symbols,
/// followed by `=` padding when `pad` holds.
pub open spec fn base64(b: Seq<u8>, url: bool, pad: bool) -> Seq<char>
    decreases b.len(),
{
    if b.len() == 0 {
        Seq::empty()
    } else if b.len() == 1 {
        let head = seq![symbol((b[0] / 4) as nat, url), symbol(((b[0] % 4) * 16) as nat, url)];
        if pad { head + seq!['=', '='] } else { head }
    } else if b.len() == 2 {
        let head = seq![
            symbol((b[0] / 4) as nat, url),
            symbol(((b[0] % 4) * 16 + b[1] / 16) as nat, url),
            symbol(((b[1] % 16) * 4) as nat, url),
        ];
        if pad { head.push('=') } else { head }
    } else {
        seq![
            symbol((b[0] / 4) as nat, url),
            symbol(((b[0] % 4) * 16 + b[1] / 16) as nat, url),
            symbol(((b[1] % 16) * 4 + b[2] / 64) as nat, url),
            symbol((b[2] % 64) as nat, url),
        ] + base64(b.subrange(3, b.len() as int), url, pad)
    }
}

/// The URL-safe, unpadded encoding used in tracking tokens.
pub open spec fn base64_url(b: Seq<u8>) -> Seq<char> {
    base64(b, true, false)
}

/// The standard, padded encoding used for sealed credentials.
pub open spec fn base64_std(b: Seq<u8>) -> Seq<char> {
    base64(b, false, true)
}

/// The bytes whose encoding is `s`, if there are any (there is at most one,
/// see `lemma_base64_injective`).
pub open spec fn base64_decode(s: Seq<char>, url: bool, pad: bool) -> Option<Seq<u8>> {
    if exists|b: Seq<u8>| base64(b, url, pad) == s {
        Some(choose|b: Seq<u8>| base64(b, url, pad) == s)
    } else {
        None
    }
}

/// Whether `c` is one of the sixty-four symbols of the alphabet.
pub open spec fn is_symbol(c: char, url: bool) -> bool {
    exists|v: nat| v < 64 && symbol(v, url) == c
}

proof fn lemma_symbol_injective(v: nat, w: nat, url: bool)
    requires
        v < 64,
        w < 64,
        symbol(v, url) == symbol(w, url),
    ensures
        v == w,
{
}

proof fn lemma_symbol_not_pad_or_dot(v: nat, url: bool)
    requires
        v < 64,
    ensures
        symbol(v, url) != '=',
        symbol(v, url) != '.',
{
}

/// Every character of an unpadded encoding is a symbol of the alphabet, so
/// neither `=` nor `.` occurs in it.
pub proof fn lemma_base64_no_dot(b: Seq<u8>, url: bool)
    ensures
        forall|i: int|
            0 <= i < base64(b, url, false).len() ==> #[trigger] base64(b, url, false)[i] != '.',
    decreases b.len(),
{
    if b.len() == 0 {
    } else if b.len() == 1 {
        lemma_symbol_not_pad_or_dot((b[0] / 4) as nat, url);
        lemma_symbol_not_pad_or_dot(((b[0] % 4) * 16) as nat, url);
    } else if b.len() == 2 {
        lemma_symbol_not_pad_or_dot((b[0] / 4) as nat, url);
        lemma_symbol_not_pad_or_dot(((b[0] % 4) * 16 + b[1] / 16) as nat, url);
        lemma_symbol_not_pad_or_dot(((b[1] % 16) * 4) as nat, url);
    } else {
        let rest = b.subrange(3, b.len() as int);
        lemma_base64_no_dot(rest, url);
        lemma_symbol_not_pad_or_dot((b[0] / 4) as nat, url);
        lemma_symbol_not_pad_or_dot(((b[0] % 4) * 16 + b[1] / 16) as nat, url);
        lemma_symbol_not_pad_or_dot(((b[1] % 16) * 4 + b[2] / 64) as nat, url);
        lemma_symbol_not_pad_or_dot((b[2] % 64) as nat, url);
        let head = seq![
            symbol((b[0] / 4) as nat, url),
            symbol(((b[0] % 4) * 16 + b[1] / 16) as nat, url),
            symbol(((b[1] % 16) * 4 + b[2] / 64) as nat, url),
            symbol((b[2] % 64) as nat, url),
        ];
        assert forall|i: int| 0 <= i < base64(b, url, false).len() implies #[trigger] base64(
            b,
            url,
            false,
        )[i] != '.' by {
            if i >= 4 {
                assert(base64(b, url, false)[i] == base64(rest, url, false)[i - 4]);
            }
        }
    }
}

/// An unpadded encoding of `n` bytes is `ceil(4n / 3)` characters long,
/// every one a symbol of the alphabet.
pub proof fn lemma_unpadded_shape(b: Seq<u8>, url: bool)
    ensures
        base64(b, url, false).len() == (4 * b.len() + 2) / 3,
        forall|i: int|
            0 <= i < base64(b, url, false).len() ==> is_symbol(#[trigger] base64(b, url, false)[i], url),
    decreases b.len(),
{
    let s = base64(b, url, false);
    if b.len() == 1 {
        assert(is_symbol(s[0], url)) by { assert(symbol((b[0] / 4) as nat, url) == s[0]); }
        assert(is_symbol(s[1], url)) by { assert(symbol(((b[0] % 4) * 16) as nat, url) == s[1]); }
    } else if b.len() == 2 {
        assert(is_symbol(s[0], url)) by { assert(symbol((b[0] / 4) as nat, url) == s[0]); }
        assert(is_symbol(s[1], url)) by {
            assert(symbol(((b[0] % 4) * 16 + b[1] / 16) as nat, url) == s[1]);
        }
        assert(is_symbol(s[2], url)) by { assert(symbol(((b[1] % 16) * 4) as nat, url) == s[2]); }
    } else if b.len() >= 3 {
        let rest = b.subrange(3, b.len() as int);
        lemma_unpadded_shape(rest, url);
        assert(is_symbol(s[0], url)) by { assert(symbol((b[0] / 4) as nat, url) == s[0]); }
        assert(is_symbol(s[1], url)) by {
            assert(symbol(((b[0] % 4) * 16 + b[1] / 16) as nat, url) == s[1]);
        }
        assert(is_symbol(s[2], url)) by {
            assert(symbol(((b[1] % 16) * 4 + b[2] / 64) as nat, url) == s[2]);
        }
        assert(is_symbol(s[3], url)) by { assert(symbol((b[2] % 64) as nat, url) == s[3]); }
        assert forall|i: int| 0 <= i < s.len() implies is_symbol(#[trigger] s[i], url) by {
            if i >= 4 {
                assert(s[i] == base64(rest, url, false)[i - 4]);
            }
        }
    }
}

proof fn lemma_base64_len(b: Seq<u8>, url: bool, pad: bool)
    ensures
        b.len() == 0 <==> base64(b, url, pad).len() == 0,
        b.len() >= 3 ==> base64(b, url, pad).len() >= 4,
        b.len() == 1 ==> base64(b, url, pad).len() == (if pad { 4int } else { 2int }),
        b.len() == 2 ==> base64(b, url, pad).len() == (if pad { 4int } else { 3int }),
    decreases b.len(),
{
    if b.len() >= 3 {
        lemma_base64_len(b.subrange(3, b.len() as int), url, pad);
    }
}

proof fn lemma_group_bytes(x0: u8, x1: u8, x2: u8, y0: u8, y1: u8, y2: u8)
    requires
        x0 / 4 == y0 / 4,
        (x0 % 4) * 16 + x1 / 16 == (y0 % 4) * 16 + y1 / 16,
        (x1 % 16) * 4 + x2 / 64 == (y1 % 16) * 4 + y2 / 64,
        x2 % 64 == y2 % 64,
    ensures
        x0 == y0,
        x1 == y1,
        x2 == y2,
{
    assert(x0 % 4 == y0 % 4 && x1 / 16 == y1 / 16);
    assert(x1 % 16 == y1 % 16 && x2 / 64 == y2 / 64);
}

proof fn lemma_base64_head(b: Seq<u8>, url: bool, pad: bool)
    requires
        b.len() >= 1,
    ensures
        base64(b, url, pad)[0] == symbol((b[0] / 4) as nat, url),
        b.len() == 1 ==> base64(b, url, pad)[1] == symbol(((b[0] % 4) * 16) as nat, url),
        b.len() == 1 && pad ==> base64(b, url, pad)[2] == '=' && base64(b, url, pad)[3] == '=',
        b.len() >= 2 ==> base64(b, url, pad)[1] == symbol(
            ((b[0] % 4) * 16 + b[1] / 16) as nat,
            url,
        ),
        b.len() == 2 ==> base64(b, url, pad)[2] == symbol(((b[1] % 16) * 4) as nat, url),
        b.len() == 2 && pad ==> base64(b, url, pad)[3] == '=',
        b.len() >= 3 ==> base64(b, url, pad)[2] == symbol(
            ((b[1] % 16) * 4 + b[2] / 64) as nat,
            url,
        ),
        b.len() >= 3 ==> base64(b, url, pad)[3] == symbol((b[2] % 64) as nat, url),
        b.len() >= 3 ==> base64(b.subrange(3, b.len() as int), url, pad) =~= base64(
            b,
            url,
            pad,
        ).subrange(4, base64(b, url, pad).len() as int),
{
    lemma_base64_len(b, url, pad);
}

/// Distinct byte strings have distinct encodings.
pub proof fn lemma_base64_injective(a: Seq<u8>, b: Seq<u8>, url: bool, pad: bool)
    requires
        base64(a, url, pad) == base64(b, url, pad),
    ensures
        a == b,
    decreases a.len(),
{
    let ea = base64(a, url, pad);
    let eb = base64(b, url, pad);
    lemma_base64_len(a, url, pad);
    lemma_base64_len(b, url, pad);
    if a.len() == 0 || b.len() == 0 {
        assert(a =~= b);
        return;
    }
    lemma_base64_head(a, url, pad);
    lemma_base64_head(b, url, pad);
    assert(ea[0] == eb[0] && ea[1] == eb[1]);
    lemma_symbol_injective((a[0] / 4) as nat, (b[0] / 4) as nat, url);
    if a.len() >= 3 && b.len() >= 3 {
        lemma_symbol_injective(
            ((a[0] % 4) * 16 + a[1] / 16) as nat,
            ((b[0] % 4) * 16 + b[1] / 16) as nat,
            url,
        );
        assert(ea[2] == eb[2] && ea[3] == eb[3]);
        lemma_symbol_injective(
            ((a[1] % 16) * 4 + a[2] / 64) as nat,
            ((b[1] % 16) * 4 + b[2] / 64) as nat,
            url,
        );
        lemma_symbol_injective((a[2] % 64) as nat, (b[2] % 64) as nat, url);
        lemma_group_bytes(a[0], a[1], a[2], b[0], b[1], b[2]);
        let ra = a.subrange(3, a.len() as int);
        let rb = b.subrange(3, b.len() as int);
        lemma_base64_injective(ra, rb, url, pad);
        assert(a =~= seq![a[0], a[1], a[2]] + ra);
        assert(b =~= seq![b[0], b[1], b[2]] + rb);
        return;
    }
    // At least one side ends here; the padding or the length tells the cases apart.
    if a.len() >= 3 {
        lemma_symbol_not_pad_or_dot(((a[1] % 16) * 4 + a[2] / 64) as nat, url);
        lemma_symbol_not_pad_or_dot((a[2] % 64) as nat, url);
        assert(ea[3] == eb[3]);
        assert(false);
    }
    if b.len() >= 3 {
        lemma_symbol_not_pad_or_dot(((b[1] % 16) * 4 + b[2] / 64) as nat, url);
        lemma_symbol_not_pad_or_dot((b[2] % 64) as nat, url);
        assert(ea[3] == eb[3]);
        assert(false);
    }
    if a.len() == 1 && b.len() == 2 {
        lemma_symbol_not_pad_or_dot(((b[1] % 16) * 4) as nat, url);
        assert(ea[2] == eb[2]);
        assert(false);
    }
    if a.len() == 2 && b.len() == 1 {
        lemma_symbol_not_pad_or_dot(((a[1] % 16) * 4) as nat, url);
        assert(ea[2] == eb[2]);
        assert(false);
    }
    if a.len() == 1 {
        lemma_symbol_injective(((a[0] % 4) * 16) as nat, ((b[0] % 4) * 16) as nat, url);
        assert(a =~= b);
    } else {
        lemma_symbol_injective(
            ((a[0] % 4) * 16 + a[1] / 16) as nat,
            ((b[0] % 4) * 16 + b[1] / 16) as nat,
            url,
        );
        assert(ea[2] == eb[2]);
        lemma_symbol_injective(((a[1] % 16) * 4) as nat, ((b[1] % 16) * 4) as nat, url);
        assert(a[0] % 4 == b[0] % 4 && a[1] / 16 == b[1] / 16 && a[1] % 16 == b[1] % 16);
        assert(a =~= b);
    }
}

/// Decoding an encoding gives back the bytes that were encoded.
pub proof fn lemma_base64_roundtrip(b: Seq<u8>, url: bool, pad: bool)
    ensures
        base64_decode(base64(b, url, pad), url, pad) == Some(b),
{
    let s = base64(b, url, pad);
    assert(base64(b, url, pad) == s);
    let c = choose|x: Seq<u8>| base64(x, url, pad) == s;
    lemma_base64_injective(c, b, url, pad);
}

/// `URL_SAFE_NO_PAD.encode` of the base64 crate: the URL-safe alphabet,
/// without padding.
#[verifier::external_body]
pub(crate) fn encode_url(data: &[u8]) -> (s: String)
    ensures
        s@ == base64_url(data@),
{
    base64::Engine::encode(&base64::engine::general_purpose::URL_SAFE_NO_PAD, data)
}

/// `URL_SAFE_NO_PAD.decode` of the base64 crate. It accepts exactly the
/// unpadded URL-safe encodings (no `=`, no stray trailing bits) and gives back
/// the encoded bytes; everything else is an error.
#[verifier::external_body]
pub(crate) fn decode_url(s: &str) -> (res: Option<Vec<u8>>)
    ensures
        res matches Some(b) ==> base64_url(b@) == s@,
        res is None ==> forall|b: Seq<u8>| base64_url(b) != s@,
{
    base64::Engine::decode(&base64::engine::general_purpose::URL_SAFE_NO_PAD, s).ok()
}

/// `STANDARD.encode` of the base64 crate: the standard alphabet, padded.
#[verifier::external_body]
pub(crate) fn encode_std(data: &[u8]) -> (s: String)
    ensures
        s@ == base64_std(data@),
{
    base64::Engine::encode(&base64::engine::general_purpose::STANDARD, data)
}

/// Decoded bytes, or the message of the decode error.
pub type DecodedBytes = Result<Vec<u8>, String>;

/// The message of the `DecodeError` that `STANDARD.decode` of the base64
/// crate gives for `s` (`None` when `s` decodes).
pub uninterp spec fn spec_std_decode_error(s: Seq<char>) -> Option<Seq<char>>;

/// `STANDARD.decode` of the base64 crate, the error taken by its message. It
/// accepts exactly the canonical padded encodings and gives back the encoded
/// bytes; everything else is an error.
#[verifier::external_body]
pub(crate) fn decode_std(s: &str) -> (res: DecodedBytes)
    ensures
        res matches Ok(b) ==> base64_std(b@) == s@,
        res is Err ==> forall|b: Seq<u8>| base64_std(b) != s@,
        res matches Err(e) ==> (spec_std_decode_error(s@) matches Some(m) && m == e@),
{
    match base64::Engine::decode(&base64::engine::general_purpose::STANDARD, s) {
        Ok(b) => Ok(b),
        Err(e) => Err(e.to_string()),
    }
}

/// What `decode_url` returns, as a function of its input.
pub proof fn lemma_decode_url_result(s: Seq<char>, res: Option<Seq<u8>>)
    requires
        res matches Some(b) ==> base64_url(b) == s,
        res is None ==> forall|b: Seq<u8>| base64_url(b) != s,
    ensures
        res == base64_decode(s, true, false),
{
    if let Some(b) = res {
        lemma_base64_roundtrip(b, true, false);
    } else {
        assert(!exists|b: Seq<u8>| base64(b, true, false) == s) by {
            if exists|b: Seq<u8>| base64(b, true, false) == s {
                let b = choose|b: Seq<u8>| base64(b, true, false) == s;
                assert(base64_url(b) != s);
            }
        }
    }
}

/// What `decode_std` returns, as a function of its input.
pub proof fn lemma_decode_std_result(s: Seq<char>, res: Option<Seq<u8>>)
    requires
        res matches Some(b) ==> base64_std(b) == s,
        res is None ==> forall|b: Seq<u8>| base64_std(b) != s,
    ensures
        res == base64_decode(s, false, true),
{
    if let Some(b) = res {
        lemma_base64_roundtrip(b, false, true);
    } else {
        assert(!exists|b: Seq<u8>| base64(b, false, true) == s) by {
            if exists|b: Seq<u8>| base64(b, false, true) == s {
                let b = choose|b: Seq<u8>| base64(b, false, true) == s;
                assert(base64_std(b) != s);
            }
        }
    }
}

} // verus!
