//! The render pipeline's fixed-capacity text buffer: a `heapless::Vec` of at
//! most 64 bytes, the bound chosen generously above the widest line any field
//! can render. Formatting that would exceed the capacity is reported as an
//! error, never silently truncated.

use vstd::prelude::*;

verus! {

/// The fixed-capacity vector type of the `heapless` crate, declared so that
/// its values can flow through verified signatures.
#[verifier::external_type_specification]
#[verifier::external_body]
#[verifier::reject_recursive_types(T)]
pub struct ExHeaplessVec<T, const N: usize>(heapless::Vec<T, N>);

/// The bytes a line buffer holds, in order.
pub uninterp spec fn line_bytes(v: heapless::Vec<u8, 64>) -> Seq<u8>;

/// Relies on heapless::Vec::new: a freshly constructed vector is empty.
#[verifier::external_body]
fn line_new() -> (r: heapless::Vec<u8, 64>)
    ensures
        line_bytes(r) == Seq::<u8>::empty(),
{
    heapless::Vec::new()
}

/// Relies on heapless::Vec::push: appends the byte and returns `Ok` exactly
/// when the vector holds fewer bytes than its capacity of 64; on a full
/// vector it returns the byte back as `Err` and leaves the contents alone.
#[verifier::external_body]
fn line_push(v: &mut heapless::Vec<u8, 64>, b: u8) -> (r: Result<(), u8>)
    ensures
        r is Ok ==> line_bytes(*final(v)) == line_bytes(*old(v)).push(b),
        r is Err ==> line_bytes(*final(v)) == line_bytes(*old(v)),
        r is Err ==> r->Err_0 == b,
        r is Ok ==> line_bytes(*old(v)).len() < 64,
        r is Err ==> line_bytes(*old(v)).len() >= 64,
{
    v.push(b)
}

/// Relies on heapless::Vec::len: the number of bytes held.
#[verifier::external_body]
pub fn line_len(v: &heapless::Vec<u8, 64>) -> (n: usize)
    ensures
        n == line_bytes(*v).len(),
{
    v.len()
}

/// Relies on heapless::Vec::as_slice: the held bytes in order.
#[verifier::external_body]
pub fn line_to_vec(v: &heapless::Vec<u8, 64>) -> (r: Vec<u8>)
    ensures
        r@ == line_bytes(*v),
{
    v.as_slice().to_vec()
}

/// A failure of the render pipeline.
#[derive(Clone, Copy, PartialEq, Eq, Structural, Debug)]
pub enum RenderError {
    /// The formatted text would not fit the fixed line buffer.
    CapacityExceeded,
}

/// Move formatted bytes into a fixed-capacity line buffer. Succeeds exactly
/// when the text fits the 64-byte capacity; a wider text is a capacity error.
pub fn pack_line(bytes: &Vec<u8>) -> (r: Result<heapless::Vec<u8, 64>, RenderError>)
    ensures
        r is Ok <==> bytes@.len() <= 64,
        r is Ok ==> line_bytes(r->Ok_0) == bytes@,
        r is Err ==> r->Err_0 == RenderError::CapacityExceeded,
{
    let mut out = line_new();
    let mut i: usize = 0;
    proof {
        assert(bytes@.take(0) =~= line_bytes(out));
    }
    while i < bytes.len()
        invariant
            i <= bytes.len(),
            i <= 64,
            line_bytes(out) == bytes@.take(i as int),
        decreases bytes.len() - i,
    {
        match line_push(&mut out, bytes[i]) {
            Ok(_) => {
                proof {
                    assert(bytes@.take(i + 1) =~= bytes@.take(i as int).push(bytes@[i as int]));
                }
            },
            Err(_) => {
                return Err(RenderError::CapacityExceeded);
            },
        }
        i = i + 1;
    }
    proof {
        assert(bytes@.take(bytes.len() as int) =~= bytes@);
    }
    Ok(out)
}

} // verus!
