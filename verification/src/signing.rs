use vstd::prelude::*;
use vstd::string::*;
use vstd::utf8::encode_utf8;

use crate::text::{decimal, decimal_string, decimal_value, is_decimal_digits, lemma_decimal_reads_back};

verus! {

/// The Keccak-256 hash of `bytes`.
pub uninterp spec fn keccak256_of(bytes: Seq<u8>) -> Seq<u8>;

/// `web3::signing::keccak256`: the 32-byte Keccak-256 hash of `bytes`.
#[verifier::external_body]
pub(crate) fn keccak256(bytes: &[u8]) -> (res: [u8; 32])
    ensures
        res@ == keccak256_of(bytes@),
{
    web3::signing::keccak256(bytes)
}

/// The account (the 20-byte address) that signed the 32-byte `message` with the 64-byte
/// compact `signature` and the recovery id `recovery_id`, if the three make a valid signature.
pub uninterp spec fn recovered_account(message: Seq<u8>, signature: Seq<u8>, recovery_id: int) -> Option<
    Seq<u8>,
>;

/// `web3::signing::recover`: the address of the account that signed `message`, or nothing
/// where the message is not 32 bytes, the recovery id is not one of 0 to 3, or the signature
/// is not a valid 64-byte recoverable signature of the message.
#[verifier::external_body]
pub(crate) fn recover(message: &[u8], signature: &[u8], recovery_id: i32) -> (res: Option<[u8; 20]>)
    ensures
        match res {
            Some(account) => recovered_account(message@, signature@, recovery_id as int) == Some(
                account@,
            ),
            None => recovered_account(message@, signature@, recovery_id as int) is None,
        },
{
    match web3::signing::recover(message, signature, recovery_id) {
        Ok(account) => Some(account.0),
        Err(_) => None,
    }
}

/// The value of the hexadecimal digit whose ASCII code is `b`, upper or lower case.
pub open spec fn hex_value(b: u8) -> Option<u8> {
    if 48 <= b <= 57 {
        Some((b - 48) as u8)
    } else if 97 <= b <= 102 {
        Some((b - 87) as u8)
    } else if 65 <= b <= 70 {
        Some((b - 55) as u8)
    } else {
        None
    }
}

/// The bytes that the hexadecimal text `text` (as bytes) stands for, two digits a byte, or
/// nothing where its length is odd or it holds a byte that is no hexadecimal digit.
pub open spec fn hex_decoded(text: Seq<u8>) -> Option<Seq<u8>> {
    if text.len() % 2 == 0 && forall|i: int| 0 <= i < text.len() ==> (#[trigger] hex_value(
        text[i],
    )) is Some {
        Some(
            Seq::new(
                text.len() / 2,
                |i: int|
                    (hex_value(text[2 * i])->0 as int * 16 + hex_value(text[2 * i + 1])->0) as u8,
            ),
        )
    } else {
        None
    }
}

/// `hex::decode`: the bytes that the hexadecimal text `text` stands for, or nothing where it
/// is not such a text.
#[verifier::external_body]
pub(crate) fn hex_decode(text: &str) -> (res: Option<Vec<u8>>)
    ensures
        match res {
            Some(bytes) => hex_decoded(text.spec_bytes()) == Some(bytes@),
            None => hex_decoded(text.spec_bytes()) is None,
        },
{
    hex::decode(text).ok()
}

/// The text that is hashed to sign `message` the Ethereum way: a fixed preamble, the length
/// of the message in bytes, and the message.
pub open spec fn eth_signed_text(message: Seq<char>) -> Seq<char> {
    "\x19Ethereum Signed Message:\n"@ + decimal(encode_utf8(message).len()) + message
}

/// The hash that an Ethereum account signs to sign `message`: the Keccak-256 hash of the
/// preamble `"\x19Ethereum Signed Message:\n"`, the length of the message in bytes, and the
/// message.
pub fn eth_message(message: String) -> (res: [u8; 32])
    ensures
        res@ == keccak256_of(encode_utf8(eth_signed_text(message@))),
{
    let len = message.as_str().as_bytes().len();
    let text = "\x19Ethereum Signed Message:\n".to_owned();
    let text = text.concat(decimal_string(len as u64).as_str());
    let text = text.concat(message.as_str());
    proof {
        assert(text@ =~= eth_signed_text(message@));
    }
    keccak256(text.as_str().as_bytes())
}

/// The text hashed to sign `message` is the preamble, then digits, then the message itself;
/// the digits read back as the whole length of the message in bytes, however long it is.
pub proof fn lemma_signed_text_holds_byte_length(message: Seq<char>)
    ensures
        ({
            let t = eth_signed_text(message);
            let preamble = "\x19Ethereum Signed Message:\n"@;
            let digits = t.subrange(preamble.len() as int, t.len() - message.len());
            &&& t.len() >= preamble.len() + message.len()
            &&& t.take(preamble.len() as int) == preamble
            &&& t.skip(t.len() - message.len()) == message
            &&& is_decimal_digits(digits)
            &&& decimal_value(digits) == encode_utf8(message).len()
        }),
{
    let t = eth_signed_text(message);
    let preamble = "\x19Ethereum Signed Message:\n"@;
    let d = decimal(encode_utf8(message).len());
    lemma_decimal_reads_back(encode_utf8(message).len());
    assert(t.take(preamble.len() as int) =~= preamble);
    assert(t.skip(t.len() - message.len()) =~= message);
    assert(t.subrange(preamble.len() as int, t.len() - message.len()) =~= d);
}

/// The lower case hexadecimal digit of `n`.
pub open spec fn hex_digit_char(n: int) -> char {
    if n == 0 {
        '0'
    } else if n == 1 {
        '1'
    } else if n == 2 {
        '2'
    } else if n == 3 {
        '3'
    } else if n == 4 {
        '4'
    } else if n == 5 {
        '5'
    } else if n == 6 {
        '6'
    } else if n == 7 {
        '7'
    } else if n == 8 {
        '8'
    } else if n == 9 {
        '9'
    } else if n == 10 {
        'a'
    } else if n == 11 {
        'b'
    } else if n == 12 {
        'c'
    } else if n == 13 {
        'd'
    } else if n == 14 {
        'e'
    } else {
        'f'
    }
}

/// The upper case form of a lower case hexadecimal letter; other characters stay as they are.
pub open spec fn upper_hex_letter(c: char) -> char {
    if c == 'a' {
        'A'
    } else if c == 'b' {
        'B'
    } else if c == 'c' {
        'C'
    } else if c == 'd' {
        'D'
    } else if c == 'e' {
        'E'
    } else if c == 'f' {
        'F'
    } else {
        c
    }
}

/// The `i`-th half byte of `bytes`, the high half of each byte first.
pub open spec fn nibble(bytes: Seq<u8>, i: int) -> int {
    if i % 2 == 0 {
        bytes[i / 2] as int / 16
    } else {
        bytes[i / 2] as int % 16
    }
}

/// `bytes` in lower case hexadecimal, two digits a byte.
pub open spec fn lower_hex_chars(bytes: Seq<u8>) -> Seq<char> {
    Seq::new(2 * bytes.len(), |i: int| hex_digit_char(nibble(bytes, i)))
}

/// The ASCII codes of `chars`.
pub open spec fn ascii_codes(chars: Seq<char>) -> Seq<u8> {
    chars.map_values(|c: char| c as u8)
}

/// The mixed-case checksum form of an address (EIP-55): its lower case hexadecimal digits, with
/// each letter upper case where the matching half byte of the Keccak-256 hash of the lower case
/// text is 8 or more.
pub open spec fn checksum_chars(account: Seq<u8>) -> Seq<char> {
    let lower = lower_hex_chars(account);
    let hash = keccak256_of(ascii_codes(lower));
    Seq::new(
        lower.len(),
        |i: int|
            if nibble(hash, i) >= 8 {
                upper_hex_letter(lower[i])
            } else {
                lower[i]
            },
    )
}

/// How `to_string` writes an `alloy` address: `0x` and its checksum form.
pub open spec fn eth_address_text(account: Seq<u8>) -> Seq<char> {
    "0x"@ + checksum_chars(account)
}

/// The text of the hexadecimal digit `n`, lower or upper case.
fn hex_digit_text(n: u8, upper: bool) -> (res: &'static str)
    requires
        n < 16,
    ensures
        res@ == seq![
            if upper {
                upper_hex_letter(hex_digit_char(n as int))
            } else {
                hex_digit_char(n as int)
            },
        ],
{
    proof {
        reveal_strlit("0");
        reveal_strlit("1");
        reveal_strlit("2");
        reveal_strlit("3");
        reveal_strlit("4");
        reveal_strlit("5");
        reveal_strlit("6");
        reveal_strlit("7");
        reveal_strlit("8");
        reveal_strlit("9");
        reveal_strlit("a");
        reveal_strlit("b");
        reveal_strlit("c");
        reveal_strlit("d");
        reveal_strlit("e");
        reveal_strlit("f");
        reveal_strlit("A");
        reveal_strlit("B");
        reveal_strlit("C");
        reveal_strlit("D");
        reveal_strlit("E");
        reveal_strlit("F");
    }
    if n == 0 {
        "0"
    } else if n == 1 {
        "1"
    } else if n == 2 {
        "2"
    } else if n == 3 {
        "3"
    } else if n == 4 {
        "4"
    } else if n == 5 {
        "5"
    } else if n == 6 {
        "6"
    } else if n == 7 {
        "7"
    } else if n == 8 {
        "8"
    } else if n == 9 {
        "9"
    } else if n == 10 {
        if upper {
            "A"
        } else {
            "a"
        }
    } else if n == 11 {
        if upper {
            "B"
        } else {
            "b"
        }
    } else if n == 12 {
        if upper {
            "C"
        } else {
            "c"
        }
    } else if n == 13 {
        if upper {
            "D"
        } else {
            "d"
        }
    } else if n == 14 {
        if upper {
            "E"
        } else {
            "e"
        }
    } else {
        if upper {
            "F"
        } else {
            "f"
        }
    }
}

/// The ASCII code of the lower case hexadecimal digit `n`.
fn hex_digit_code(n: u8) -> (res: u8)
    requires
        n < 16,
    ensures
        res == hex_digit_char(n as int) as u8,
{
    if n < 10 {
        48 + n
    } else {
        87 + n
    }
}

/// The ASCII codes of `bytes` in lower case hexadecimal.
fn lower_hex_codes(bytes: &[u8]) -> (res: Vec<u8>)
    ensures
        res@ == ascii_codes(lower_hex_chars(bytes@)),
{
    let mut res: Vec<u8> = Vec::new();
    let mut i: usize = 0;
    while i < bytes.len()
        invariant
            i <= bytes@.len(),
            res@ == ascii_codes(lower_hex_chars(bytes@)).take(2 * i),
        decreases bytes@.len() - i,
    {
        res.push(hex_digit_code(bytes[i] / 16));
        res.push(hex_digit_code(bytes[i] % 16));
        proof {
            assert(res@ =~= ascii_codes(lower_hex_chars(bytes@)).take(2 * (i + 1)));
        }
        i = i + 1;
    }
    proof {
        assert(res@ =~= ascii_codes(lower_hex_chars(bytes@)));
    }
    res
}

/// How `to_string` writes the `alloy` address `account`: `0x` and its mixed-case checksum form.
pub fn eth_address_string(account: &[u8; 20]) -> (res: String)
    ensures
        res@ == eth_address_text(account@),
{
    let lower = lower_hex_codes(account);
    let hash = keccak256(lower.as_slice());
    let ghost lower_chars = lower_hex_chars(account@);
    let mut res = "0x".to_owned();
    proof {
        reveal_strlit("0x");
    }
    let mut i: usize = 0;
    while i < 20
        invariant
            i <= 20,
            account@.len() == 20,
            hash@ == keccak256_of(ascii_codes(lower_chars)),
            lower_chars == lower_hex_chars(account@),
            res@ == "0x"@ + checksum_chars(account@).take(2 * i),
        decreases 20 - i,
    {
        let h = hash[i];
        res = res.concat(hex_digit_text(account[i] / 16, h / 16 >= 8));
        res = res.concat(hex_digit_text(account[i] % 16, h % 16 >= 8));
        proof {
            assert(res@ =~= "0x"@ + checksum_chars(account@).take(2 * (i + 1)));
        }
        i = i + 1;
    }
    proof {
        assert(checksum_chars(account@).take(40) =~= checksum_chars(account@));
    }
    res
}

} // verus!

verus! {

/// Decoding the lower case hexadecimal text of bytes gives the bytes back.
pub proof fn lemma_hex_round_trip(bytes: Seq<u8>)
    ensures
        hex_decoded(ascii_codes(lower_hex_chars(bytes))) == Some(bytes),
{
    let text = ascii_codes(lower_hex_chars(bytes));
    assert forall|i: int| 0 <= i < text.len() implies (#[trigger] hex_value(text[i])) is Some
        && hex_value(text[i])->0 == nibble(bytes, i) by {
        assert(0 <= nibble(bytes, i) < 16);
    }
    let decoded = hex_decoded(text)->0;
    assert forall|i: int| 0 <= i < bytes.len() implies decoded[i] == bytes[i] by {
        assert(hex_value(text[2 * i])->0 == nibble(bytes, 2 * i));
        assert(hex_value(text[2 * i + 1])->0 == nibble(bytes, 2 * i + 1));
        assert((2 * i) % 2 == 0);
        assert((2 * i + 1) % 2 == 1);
        assert((2 * i) / 2 == i);
        assert((2 * i + 1) / 2 == i);
        assert(bytes[i] as int / 16 * 16 + bytes[i] as int % 16 == bytes[i]);
    }
    assert(decoded =~= bytes);
}

} // verus!
