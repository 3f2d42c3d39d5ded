//! Selection of the files a batch run processes.
use vstd::prelude::*;
use vstd::string::StringSliceAdditionalSpecFns;

verus! {

/// The lowercase form of a text, character by character as Unicode defines it.
pub uninterp spec fn lowercase_of(s: Seq<char>) -> Seq<char>;

/// Relies on `str::to_lowercase`: the result depends on the characters alone.
#[verifier::external_body]
fn lowercase(s: &str) -> (r: String)
    ensures
        r@ == lowercase_of(s@),
{
    s.to_lowercase()
}

/// The lowercase extensions of the image formats a batch accepts.
pub open spec fn image_extension(lower: Seq<char>) -> bool {
    lower == "png"@ || lower == "jpg"@ || lower == "jpeg"@
}

/// The UTF-8 bytes of `.temp.`, the marker of an intermediate file.
pub open spec fn temp_marker() -> Seq<u8> {
    seq![46u8, 116, 101, 109, 112, 46]
}

/// The UTF-8 bytes of `.vtrace_temp.`, the marker of a tracer's intermediate file.
pub open spec fn trace_marker() -> Seq<u8> {
    seq![46u8, 118, 116, 114, 97, 99, 101, 95, 116, 101, 109, 112, 46]
}

/// `p` occurs in `s` as a contiguous run.
pub open spec fn contains_run(s: Seq<u8>, p: Seq<u8>) -> bool {
    exists|i: int| 0 <= i && i + p.len() <= s.len() && #[trigger] s.subrange(i, i + p.len()) == p
}

/// Whether `p` occurs in `s` at position `at`.
fn matches_at(s: &[u8], p: &Vec<u8>, at: usize) -> (r: bool)
    requires
        at + p@.len() <= s@.len(),
    ensures
        r == (s@.subrange(at as int, at + p@.len()) == p@),
{
    let n: usize = s.len();
    let mut k: usize = 0;
    while k < p.len()
        invariant
            n == s@.len(),
            at + p@.len() <= s@.len(),
            k <= p@.len(),
            forall|j: int| 0 <= j < k ==> s@[at + j] == p@[j],
        decreases p@.len() - k,
    {
        if s[at + k] != p[k] {
            assert(s@.subrange(at as int, at + p@.len())[k as int] != p@[k as int]);
            return false;
        }
        k = k + 1;
    }
    assert(s@.subrange(at as int, at + p@.len()) =~= p@);
    true
}

/// Whether `p` occurs anywhere in `s`.
fn contains_bytes(s: &[u8], p: &Vec<u8>) -> (r: bool)
    ensures
        r == contains_run(s@, p@),
{
    if p.len() > s.len() {
        return false;
    }
    let last: usize = s.len() - p.len();
    let mut i: usize = 0;
    while i <= last
        invariant
            last + p@.len() == s@.len(),
            forall|j: int| 0 <= j < i ==> #[trigger] s@.subrange(j, j + p@.len()) != p@,
        decreases last + 1 - i,
    {
        if matches_at(s, p, i) {
            return true;
        }
        if i == last {
            assert forall|j: int| 0 <= j && j + p@.len() <= s@.len() implies #[trigger] s@.subrange(
                j,
                j + p@.len(),
            ) != p@ by {
                assert(j <= i);
            }
            return false;
        }
        i = i + 1;
    }
    false
}

/// A batch processes a file when its extension is png, jpg or jpeg in any
/// case, and its name carries neither intermediate-file marker.
pub fn is_batch_candidate(file_name: &str, extension: &str) -> (r: bool)
    ensures
        r == (image_extension(lowercase_of(extension@)) && !contains_run(
            file_name.spec_bytes(),
            temp_marker(),
        ) && !contains_run(file_name.spec_bytes(), trace_marker())),
{
    let lower = lowercase(extension);
    let accepted = lower == "png".to_string() || lower == "jpg".to_string() || lower
        == "jpeg".to_string();
    if !accepted {
        return false;
    }
    let name = file_name.as_bytes();
    let temp: Vec<u8> = vec![46u8, 116, 101, 109, 112, 46];
    let trace: Vec<u8> = vec![46u8, 118, 116, 114, 97, 99, 101, 95, 116, 101, 109, 112, 46];
    assert(temp@ =~= temp_marker());
    assert(trace@ =~= trace_marker());
    !contains_bytes(name, &temp) && !contains_bytes(name, &trace)
}

} // verus!
