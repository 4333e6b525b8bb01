use vstd::prelude::*;
use vstd::string::StringSliceAdditionalSpecFns;

verus! {

#[verifier::external_type_specification]
#[verifier::external_body]
pub struct ExHeaplessString<const N: usize>(heapless::String<N>);

/// Names the bytes that a `heapless::String<32>` holds.
pub uninterp spec fn heapless_string32_bytes(s: heapless::String<32>) -> Seq<u8>;

/// Names the bytes that a `heapless::String<64>` holds.
pub uninterp spec fn heapless_string64_bytes(s: heapless::String<64>) -> Seq<u8>;

/// `heapless::String::<32>::new`. Trusted: the new string holds no bytes.
#[verifier::external_body]
fn heapless_string32_new() -> (s: heapless::String<32>)
    ensures
        heapless_string32_bytes(s) == Seq::<u8>::empty(),
{
    heapless::String::new()
}

/// `heapless::String::<32>::push_str`. Trusted, as its source shows: when the
/// bytes of `text` fit in the remaining capacity they are appended and `Ok`
/// is returned; otherwise nothing changes and `Err` is returned.
#[verifier::external_body]
fn heapless_string32_push_str(s: &mut heapless::String<32>, text: &str) -> (pushed: Result<(), ()>)
    ensures
        match pushed {
            Ok(()) => heapless_string32_bytes(*old(s)).len() + text.spec_bytes().len() <= 32
                && heapless_string32_bytes(*final(s)) == heapless_string32_bytes(*old(s))
                + text.spec_bytes(),
            Err(()) => heapless_string32_bytes(*old(s)).len() + text.spec_bytes().len() > 32
                && *final(s) == *old(s),
        },
{
    s.push_str(text)
}

/// `heapless::String::<64>::new`. Trusted: the new string holds no bytes.
#[verifier::external_body]
fn heapless_string64_new() -> (s: heapless::String<64>)
    ensures
        heapless_string64_bytes(s) == Seq::<u8>::empty(),
{
    heapless::String::new()
}

/// `heapless::String::<64>::push_str`. Trusted, as its source shows: when the
/// bytes of `text` fit in the remaining capacity they are appended and `Ok`
/// is returned; otherwise nothing changes and `Err` is returned.
#[verifier::external_body]
fn heapless_string64_push_str(s: &mut heapless::String<64>, text: &str) -> (pushed: Result<(), ()>)
    ensures
        match pushed {
            Ok(()) => heapless_string64_bytes(*old(s)).len() + text.spec_bytes().len() <= 64
                && heapless_string64_bytes(*final(s)) == heapless_string64_bytes(*old(s))
                + text.spec_bytes(),
            Err(()) => heapless_string64_bytes(*old(s)).len() + text.spec_bytes().len() > 64
                && *final(s) == *old(s),
        },
{
    s.push_str(text)
}

/// The text `s` in a bounded string of 32 bytes (the size of a Wi-Fi SSID).
pub fn str_to_string32(s: &str) -> (string: heapless::String<32>)
    requires
        s.spec_bytes().len() <= 32,
    ensures
        heapless_string32_bytes(string) == s.spec_bytes(),
{
    let mut string = heapless_string32_new();
    let pushed = heapless_string32_push_str(&mut string, s);
    match pushed {
        Ok(()) => {},
        Err(()) => {
            assert(false);
        },
    }
    assert(Seq::<u8>::empty() + s.spec_bytes() =~= s.spec_bytes());
    string
}

/// The text `s` in a bounded string of 64 bytes (the size of a Wi-Fi password).
pub fn str_to_string64(s: &str) -> (string: heapless::String<64>)
    requires
        s.spec_bytes().len() <= 64,
    ensures
        heapless_string64_bytes(string) == s.spec_bytes(),
{
    let mut string = heapless_string64_new();
    let pushed = heapless_string64_push_str(&mut string, s);
    match pushed {
        Ok(()) => {},
        Err(()) => {
            assert(false);
        },
    }
    assert(Seq::<u8>::empty() + s.spec_bytes() =~= s.spec_bytes());
    string
}

} // verus!
