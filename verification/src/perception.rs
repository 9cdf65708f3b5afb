use vstd::prelude::*;
use vstd::string::*;
use crate::error::LapisResult;
use crate::text::push_char;

verus! {

/// A captured screenshot.
pub struct Screenshot {
    pub width: u32,
    pub height: u32,
    pub data: Vec<u8>,
}

/// What a vision model reports about a screenshot.
pub struct ScreenAnalysis {
    pub description: String,
    pub model: String,
}

/// Captures a screenshot; no capture backend exists yet, so the result is an
/// empty 0x0 image.
pub fn capture_screen() -> (r: LapisResult<Screenshot>)
    ensures
        r matches Ok(s) && s.width == 0 && s.height == 0 && s.data@.len() == 0,
{
    Ok(Screenshot { width: 0, height: 0, data: Vec::new() })
}

/// The character of the standard Base64 alphabet for a value below 64.
pub open spec fn base64_char(v: nat) -> char {
    if v < 26 {
        ((65 + v) as u8) as char
    } else if v < 52 {
        ((97 + (v - 26)) as u8) as char
    } else if v < 62 {
        ((48 + (v - 52)) as u8) as char
    } else if v == 62 {
        '+'
    } else {
        '/'
    }
}

/// The standard Base64 encoding (RFC 4648, with `=` padding) of bytes.
pub open spec fn base64(data: Seq<u8>) -> Seq<char>
    decreases data.len(),
{
    if data.len() == 0 {
        Seq::empty()
    } else if data.len() == 1 {
        let b0 = data[0] as nat;
        seq![base64_char(b0 / 4), base64_char((b0 % 4) * 16), '=', '=']
    } else if data.len() == 2 {
        let b0 = data[0] as nat;
        let b1 = data[1] as nat;
        seq![base64_char(b0 / 4), base64_char((b0 % 4) * 16 + b1 / 16), base64_char((b1 % 16) * 4), '=']
    } else {
        let b0 = data[0] as nat;
        let b1 = data[1] as nat;
        let b2 = data[2] as nat;
        seq![
            base64_char(b0 / 4),
            base64_char((b0 % 4) * 16 + b1 / 16),
            base64_char((b1 % 16) * 4 + b2 / 64),
            base64_char(b2 % 64),
        ] + base64(data.subrange(3, data.len() as int))
    }
}

fn base64_digit(v: u8) -> (c: char)
    requires
        v < 64,
    ensures
        c == base64_char(v as nat),
{
    if v < 26 {
        (65u8 + v) as char
    } else if v < 52 {
        (97u8 + (v - 26)) as char
    } else if v < 62 {
        (48u8 + (v - 52)) as char
    } else if v == 62 {
        '+'
    } else {
        '/'
    }
}

/// Encodes bytes in standard Base64 with padding.
pub fn encode_base64(data: &[u8]) -> (s: String)
    ensures
        s@ == base64(data@),
{
    let n = data.len();
    let mut s = String::new();
    let mut i: usize = 0;
    assert(data@.subrange(0, n as int) =~= data@);
    while i < n
        invariant
            n == data@.len(),
            i <= n,
            s@ + base64(data@.subrange(i as int, n as int)) == base64(data@),
        decreases n - i,
    {
        let ghost rest = data@.subrange(i as int, n as int);
        let ghost before = s@;
        let b0 = data[i];
        if n - i == 1 {
            push_char(&mut s, base64_digit(b0 / 4));
            push_char(&mut s, base64_digit((b0 % 4) * 16));
            push_char(&mut s, '=');
            push_char(&mut s, '=');
            i = n;
            assert(s@ =~= before + base64(rest));
        } else if n - i == 2 {
            let b1 = data[i + 1];
            push_char(&mut s, base64_digit(b0 / 4));
            push_char(&mut s, base64_digit((b0 % 4) * 16 + b1 / 16));
            push_char(&mut s, base64_digit((b1 % 16) * 4));
            push_char(&mut s, '=');
            i = n;
            assert(s@ =~= before + base64(rest));
        } else {
            let b1 = data[i + 1];
            let b2 = data[i + 2];
            push_char(&mut s, base64_digit(b0 / 4));
            push_char(&mut s, base64_digit((b0 % 4) * 16 + b1 / 16));
            push_char(&mut s, base64_digit((b1 % 16) * 4 + b2 / 64));
            push_char(&mut s, base64_digit(b2 % 64));
            i = i + 3;
            assert(rest.subrange(3, rest.len() as int) =~= data@.subrange(i as int, n as int));
            assert(s@ + base64(data@.subrange(i as int, n as int)) =~= before + base64(rest));
        }
        assert(data@.subrange(n as int, n as int) =~= Seq::<u8>::empty());
    }
    assert(s@ + Seq::<char>::empty() =~= s@);
    s
}

impl Screenshot {
    /// The image bytes encoded in Base64, as they travel to the client.
    pub fn png_base64(&self) -> (s: String)
        ensures
            s@ == base64(self.data@),
    {
        encode_base64(self.data.as_slice())
    }
}

/// Base64 turns every started group of three bytes into four characters.
pub proof fn lemma_base64_len(data: Seq<u8>)
    ensures
        base64(data).len() == 4 * ((data.len() + 2) / 3),
    decreases data.len(),
{
    if data.len() >= 3 {
        lemma_base64_len(data.subrange(3, data.len() as int));
    }
}

/// Each value below 64 is written as its character of the standard Base64
/// alphabet `A`-`Z`, `a`-`z`, `0`-`9`, `+`, `/`.
pub proof fn lemma_base64_alphabet(v: nat)
    requires
        v < 64,
    ensures
        base64_char(v) == "ABCDEFGHIJKLMNOPQRSTUVWXYZabcdefghijklmnopqrstuvwxyz0123456789+/"@[v as int],
{
    reveal_strlit("ABCDEFGHIJKLMNOPQRSTUVWXYZabcdefghijklmnopqrstuvwxyz0123456789+/");
    let b: u8 = if v < 26 { (65 + v) as u8 } else if v < 52 { (97 + (v - 26)) as u8 } else { (48 + (v - 52)) as u8 };
    if v < 62 {
        assert((b as char) as nat == b as nat);
    }
}

/// Bytes in whole groups of three encode on their own: encoding a text that
/// starts with such groups is encoding the groups, then the rest.
pub proof fn lemma_base64_concat(a: Seq<u8>, b: Seq<u8>)
    requires
        a.len() % 3 == 0,
    ensures
        base64(a + b) == base64(a) + base64(b),
    decreases a.len(),
{
    if a.len() == 0 {
        assert(a + b =~= b);
        assert(base64(a) + base64(b) =~= base64(b));
    } else {
        let rest = a.subrange(3, a.len() as int);
        lemma_base64_concat(rest, b);
        let ab = a + b;
        assert(ab.subrange(3, ab.len() as int) =~= rest + b);
        assert(ab[0] == a[0] && ab[1] == a[1] && ab[2] == a[2]);
        assert(base64(ab) =~= base64(a) + base64(b));
    }
}

} // verus!
