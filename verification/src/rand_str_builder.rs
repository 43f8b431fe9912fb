//! Builds random alphanumeric strings of a requested length, and
//! splices a required substring into a string at a random character
//! position.

use vstd::prelude::*;

use crate::enums::RegexSpeedError;

verus! {

/// Whether a character belongs to the alphanumeric alphabet the
/// generator draws from.
pub open spec fn is_alnum_char(c: char) -> bool {
    ('A' <= c && c <= 'Z') || ('a' <= c && c <= 'z') || ('0' <= c && c <= '9')
}

/// Declares rand's thread-local generator handle; the crate sees
/// nothing of its inside.
#[verifier::external_type_specification]
#[verifier::external_body]
pub struct ExThreadRng(rand::rngs::ThreadRng);

/// Relies on rand::thread_rng: returns a handle to the thread-local
/// generator. Nothing is assumed of the values it will produce.
#[verifier::external_body]
fn fresh_rng() -> rand::rngs::ThreadRng {
    rand::thread_rng()
}

/// Relies on rand::Rng::sample with rand::distributions::Alphanumeric,
/// whose `Distribution<u8>` impl draws a byte from the 62-byte charset
/// `A-Z a-z 0-9` and nothing else. Which byte comes back is left open.
#[verifier::external_body]
fn sample_alnum(rng: &mut rand::rngs::ThreadRng) -> (r: u8)
    ensures
        is_alnum_char(r as char),
{
    rand::Rng::sample(rng, rand::distributions::Alphanumeric)
}

/// Relies on rand::Rng::gen_range on the range `0..bound`: it panics
/// on an empty range and otherwise returns a value of the range. Which
/// value comes back is left open.
#[verifier::external_body]
fn gen_index(rng: &mut rand::rngs::ThreadRng, bound: usize) -> (r: usize)
    requires
        bound >= 1,
    ensures
        r < bound,
{
    rand::Rng::gen_range(rng, 0..bound)
}

/// Relies on String::push: appends the character to the end of the
/// string.
#[verifier::external_body]
fn push_char(s: &mut String, c: char)
    ensures
        final(s)@ == old(s)@.push(c),
{
    s.push(c)
}

/// Builds a random string of exactly `length` alphanumeric characters,
/// each drawn independently from the thread-local generator. A length
/// of zero is refused.
pub fn build_rand_str(length: usize) -> (r: Result<String, RegexSpeedError>)
    ensures
        r is Ok <==> length >= 1,
        r is Err ==> r->Err_0 == RegexSpeedError::InvalidLength,
        r is Ok ==> r->Ok_0@.len() == length,
        r is Ok ==> forall|i: int| 0 <= i < length ==> is_alnum_char(#[trigger] r->Ok_0@[i]),
{
    if length < 1 {
        return Err(RegexSpeedError::InvalidLength);
    }
    let mut rng = fresh_rng();
    let mut s = String::new();
    let mut built: usize = 0;
    while built < length
        invariant
            built <= length,
            s@.len() == built,
            forall|i: int| 0 <= i < built ==> is_alnum_char(#[trigger] s@[i]),
        decreases length - built,
    {
        let b = sample_alnum(&mut rng);
        push_char(&mut s, b as char);
        built = built + 1;
    }
    Ok(s)
}

/// Builds `num` random strings, each of exactly `length` alphanumeric
/// characters. The length is checked per generated string, so a
/// request for zero strings succeeds with an empty vector, and a
/// length of zero is refused as soon as one string is asked for.
pub fn build_rand_strs(length: usize, num: usize) -> (r: Result<Vec<String>, RegexSpeedError>)
    ensures
        r is Ok <==> num == 0 || length >= 1,
        r is Err ==> r->Err_0 == RegexSpeedError::InvalidLength,
        r is Ok ==> r->Ok_0@.len() == num,
        r is Ok ==> forall|k: int| 0 <= k < num ==> (#[trigger] r->Ok_0@[k])@.len() == length,
        r is Ok ==> forall|k: int, i: int|
            0 <= k < num && 0 <= i < length ==> is_alnum_char(#[trigger] r->Ok_0@[k]@[i]),
{
    let mut rand_strs: Vec<String> = Vec::new();
    let mut made: usize = 0;
    while made < num
        invariant
            made >= 1 ==> length >= 1,
            made <= num,
            rand_strs@.len() == made,
            forall|k: int| 0 <= k < made ==> (#[trigger] rand_strs@[k])@.len() == length,
            forall|k: int, i: int|
                0 <= k < made && 0 <= i < length ==> is_alnum_char(#[trigger] rand_strs@[k]@[i]),
        decreases num - made,
    {
        match build_rand_str(length) {
            Ok(s) => {
                rand_strs.push(s);
            },
            Err(e) => {
                return Err(e);
            },
        }
        made = made + 1;
    }
    Ok(rand_strs)
}

/// Splices `substring` into `string` at a character index drawn
/// uniformly from `[0, len(string))`, so the result is the text up to
/// that index, then the substring, then the rest of the text.
pub fn insert_substring(string: &str, substring: &str) -> (r: String)
    requires
        string@.len() >= 1,
    ensures
        r@.len() == string@.len() + substring@.len(),
        exists|i: int|
            0 <= i < string@.len() && r@ == string@.subrange(0, i) + substring@ + string@.subrange(
                i,
                string@.len() as int,
            ),
{
    let mut rng = fresh_rng();
    let len = string.unicode_len();
    let index = gen_index(&mut rng, len);
    let mut result = String::from_str(string.substring_char(0, index));
    result.append(substring);
    result.append(string.substring_char(index, len));
    proof {
        assert(result@ == string@.subrange(0, index as int) + substring@ + string@.subrange(
            index as int,
            string@.len() as int,
        ));
        assert(result@.len() == string@.len() + substring@.len());
    }
    result
}

} // verus!
