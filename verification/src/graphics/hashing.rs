//! The pixel bytes of a bitmap without its stride padding, and a short hash of them.
use vstd::prelude::*;
use vstd::arithmetic::div_mod::lemma_fundamental_div_mod_converse;
use vstd::arithmetic::mul::lemma_mul_inequality;
use crate::errors::ErrorKind;
use crate::flow_error::FlowError;
use crate::graphics::bitmaps::Bitmap;

verus! {

/// The pixel bytes of the bitmap, row after row, without stride padding.
pub open spec fn contiguous_pixels(b: &Bitmap) -> Seq<u8> {
    Seq::new((b.spec_h() * b.spec_row_len()) as nat, |i: int| b.cell_at(i / b.spec_row_len(), i % b.spec_row_len()))
}

/// The 64-bit xxHash of `data` with `seed`.
pub uninterp spec fn xxh64(seed: u64, data: Seq<u8>) -> u64;

/// Calls `twox_hash::XxHash64::oneshot`: the 64-bit xxHash of `data` with `seed`, which depends
/// on the seed and the bytes alone. Hashing bytes written in several pieces gives the same hash as
/// hashing them at once.
#[verifier::external_body]
fn xxhash64(seed: u64, data: &[u8]) -> (r: u64)
    ensures
        r == xxh64(seed, data@),
{
    twox_hash::XxHash64::oneshot(seed, data)
}

/// The seed of the short pixel hash.
pub const SHORT_HASH_SEED: u64 = 0x8ed1_2ad9_483d_28a0u64;

impl Bitmap {
    /// Appends the pixel bytes of the bitmap, row after row, to `v`.
    pub(crate) fn append_rows(&self, v: &mut Vec<u8>)
        requires
            self.wf(),
        ensures
            final(v)@ == old(v)@ + contiguous_pixels(self),
    {
        let row_len = self.row_len();
        let h = self.h();
        let ghost rl = row_len as int;
        let ghost start = v@.len() as int;
        let mut y: u32 = 0;
        while y < h
            invariant
                self.wf(),
                row_len == self.spec_row_len(), h == self.spec_h(), rl == row_len,
                row_len >= 1,
                y <= h,
                start == old(v)@.len(),
                v@.len() == start + y * rl,
                forall|i: int| 0 <= i < start ==> #[trigger] v@[i] == old(v)@[i],
                forall|i: int| start <= i < v@.len() ==> #[trigger] v@[i] == self.cell_at((i - start) / rl, (i - start) % rl),
            decreases h - y,
        {
            let mut k: u32 = 0;
            while k < row_len
                invariant
                    self.wf(),
                    row_len == self.spec_row_len(), h == self.spec_h(), rl == row_len,
                    row_len >= 1,
                    y < h,
                    k <= row_len,
                    start == old(v)@.len(),
                    v@.len() == start + y * rl + k,
                    forall|i: int| 0 <= i < start ==> #[trigger] v@[i] == old(v)@[i],
                    forall|i: int| start <= i < v@.len() ==> #[trigger] v@[i] == self.cell_at((i - start) / rl, (i - start) % rl),
                decreases row_len - k,
            {
                let b = self.read_cell(y, k);
                let ghost at = v@.len() as int;
                v.push(b);
                proof {
                    lemma_fundamental_div_mod_converse(at - start, rl, y as int, k as int);
                }
                k = k + 1;
            }
            proof {
                assert((y + 1) * rl == y * rl + rl) by (nonlinear_arith);
            }
            y = y + 1;
        }
        proof {
            assert(v@ =~= old(v)@ + contiguous_pixels(self));
        }
    }

    /// The pixel bytes of the bitmap, row after row, without stride padding. Refused with
    /// `InvalidOperation` when the memory for them cannot be reserved.
    pub fn create_contiguous_vec(&self) -> (r: Result<Vec<u8>, FlowError>)
        requires
            self.wf(),
        ensures
            r matches Ok(v) ==> v@ == contiguous_pixels(self),
            r matches Err(e) ==> e.kind == ErrorKind::InvalidOperation,
    {
        let h = self.h();
        let row_len = self.row_len();
        proof {
            lemma_mul_inequality(self.spec_h() - 1, self.spec_h() - 1, self.spec_stride() as int);
            assert(h * row_len <= (h - 1) * self.spec_stride() + row_len) by (nonlinear_arith)
                requires row_len <= self.spec_stride(), h >= 1;
            assert((h - 1) * self.spec_stride() >= 0) by (nonlinear_arith) requires h >= 1;
        }
        let final_len = h as usize * row_len as usize;
        let mut v: Vec<u8> = Vec::new();
        match v.try_reserve(final_len) {
            Ok(()) => {},
            Err(_) => {
                return Err(FlowError::with_message(ErrorKind::InvalidOperation,
                    "Failed to reserve memory for contiguous vec"));
            },
        }
        self.append_rows(&mut v);
        proof {
            assert(v@ =~= contiguous_pixels(self));
        }
        Ok(v)
    }

    /// A short hash of the pixel bytes: the xxHash, with a fixed seed, of the rows without their
    /// stride padding. Unused alpha bytes are hashed as they are.
    pub fn short_hash_pixels(&self) -> (r: u64)
        requires
            self.wf(),
        ensures
            r == xxh64(SHORT_HASH_SEED, contiguous_pixels(self)),
    {
        let mut v: Vec<u8> = Vec::new();
        self.append_rows(&mut v);
        proof {
            assert(v@ =~= contiguous_pixels(self));
        }
        xxhash64(SHORT_HASH_SEED, v.as_slice())
    }
}

} // verus!
