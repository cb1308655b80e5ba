//! Arithmetic on byte sizes: the sum of two sizes, and sums and products of a
//! size and an unsigned integer, in either order. An operation whose result
//! does not fit in 64 bits is outside its contract.
//!
//! The contract of each operator stands in the impl that follows it: what
//! `add_req` or `mul_req` says is required of the operands, and what
//! `add_spec` or `mul_spec` says is the result.

use crate::size::ByteSize;
use vstd::prelude::*;
use vstd::std_specs::ops::{AddSpecImpl, MulSpecImpl};

verus! {

impl core::ops::Add<ByteSize> for ByteSize {
    type Output = ByteSize;

    fn add(self, rhs: ByteSize) -> (sum: ByteSize) {
        ByteSize(self.0 + rhs.0)
    }
}

impl AddSpecImpl<ByteSize> for ByteSize {
    open spec fn obeys_add_spec() -> bool {
        true
    }

    open spec fn add_req(self, rhs: ByteSize) -> bool {
        self.0 + rhs.0 <= u64::MAX
    }

    open spec fn add_spec(self, rhs: ByteSize) -> ByteSize {
        ByteSize((self.0 + rhs.0) as u64)
    }
}

impl core::ops::Add<u64> for ByteSize {
    type Output = ByteSize;

    fn add(self, rhs: u64) -> (sum: ByteSize) {
        ByteSize(self.0 + rhs)
    }
}

impl AddSpecImpl<u64> for ByteSize {
    open spec fn obeys_add_spec() -> bool {
        true
    }

    open spec fn add_req(self, rhs: u64) -> bool {
        self.0 + rhs <= u64::MAX
    }

    open spec fn add_spec(self, rhs: u64) -> ByteSize {
        ByteSize((self.0 + rhs) as u64)
    }
}

impl core::ops::Add<ByteSize> for u64 {
    type Output = ByteSize;

    fn add(self, rhs: ByteSize) -> (sum: ByteSize) {
        ByteSize(rhs.0 + self)
    }
}

impl AddSpecImpl<ByteSize> for u64 {
    open spec fn obeys_add_spec() -> bool {
        true
    }

    open spec fn add_req(self, rhs: ByteSize) -> bool {
        rhs.0 + self <= u64::MAX
    }

    open spec fn add_spec(self, rhs: ByteSize) -> ByteSize {
        ByteSize((rhs.0 + self) as u64)
    }
}

impl core::ops::Mul<u64> for ByteSize {
    type Output = ByteSize;

    fn mul(self, rhs: u64) -> (product: ByteSize) {
        ByteSize(self.0 * rhs)
    }
}

impl MulSpecImpl<u64> for ByteSize {
    open spec fn obeys_mul_spec() -> bool {
        true
    }

    open spec fn mul_req(self, rhs: u64) -> bool {
        self.0 * rhs <= u64::MAX
    }

    open spec fn mul_spec(self, rhs: u64) -> ByteSize {
        ByteSize((self.0 * rhs) as u64)
    }
}

impl core::ops::Mul<ByteSize> for u64 {
    type Output = ByteSize;

    fn mul(self, rhs: ByteSize) -> (product: ByteSize) {
        ByteSize(rhs.0 * self)
    }
}

impl MulSpecImpl<ByteSize> for u64 {
    open spec fn obeys_mul_spec() -> bool {
        true
    }

    open spec fn mul_req(self, rhs: ByteSize) -> bool {
        rhs.0 * self <= u64::MAX
    }

    open spec fn mul_spec(self, rhs: ByteSize) -> ByteSize {
        ByteSize((rhs.0 * self) as u64)
    }
}

impl core::ops::Add<u32> for ByteSize {
    type Output = ByteSize;

    fn add(self, rhs: u32) -> (sum: ByteSize) {
        ByteSize(self.0 + (rhs as u64))
    }
}

impl AddSpecImpl<u32> for ByteSize {
    open spec fn obeys_add_spec() -> bool {
        true
    }

    open spec fn add_req(self, rhs: u32) -> bool {
        self.0 + rhs <= u64::MAX
    }

    open spec fn add_spec(self, rhs: u32) -> ByteSize {
        ByteSize((self.0 + rhs) as u64)
    }
}

impl core::ops::Add<ByteSize> for u32 {
    type Output = ByteSize;

    fn add(self, rhs: ByteSize) -> (sum: ByteSize) {
        ByteSize(rhs.0 + (self as u64))
    }
}

impl AddSpecImpl<ByteSize> for u32 {
    open spec fn obeys_add_spec() -> bool {
        true
    }

    open spec fn add_req(self, rhs: ByteSize) -> bool {
        rhs.0 + self <= u64::MAX
    }

    open spec fn add_spec(self, rhs: ByteSize) -> ByteSize {
        ByteSize((rhs.0 + self) as u64)
    }
}

impl core::ops::Mul<u32> for ByteSize {
    type Output = ByteSize;

    fn mul(self, rhs: u32) -> (product: ByteSize) {
        ByteSize(self.0 * (rhs as u64))
    }
}

impl MulSpecImpl<u32> for ByteSize {
    open spec fn obeys_mul_spec() -> bool {
        true
    }

    open spec fn mul_req(self, rhs: u32) -> bool {
        self.0 * rhs <= u64::MAX
    }

    open spec fn mul_spec(self, rhs: u32) -> ByteSize {
        ByteSize((self.0 * rhs) as u64)
    }
}

impl core::ops::Mul<ByteSize> for u32 {
    type Output = ByteSize;

    fn mul(self, rhs: ByteSize) -> (product: ByteSize) {
        ByteSize(rhs.0 * (self as u64))
    }
}

impl MulSpecImpl<ByteSize> for u32 {
    open spec fn obeys_mul_spec() -> bool {
        true
    }

    open spec fn mul_req(self, rhs: ByteSize) -> bool {
        rhs.0 * self <= u64::MAX
    }

    open spec fn mul_spec(self, rhs: ByteSize) -> ByteSize {
        ByteSize((rhs.0 * self) as u64)
    }
}

impl core::ops::Add<u16> for ByteSize {
    type Output = ByteSize;

    fn add(self, rhs: u16) -> (sum: ByteSize) {
        ByteSize(self.0 + (rhs as u64))
    }
}

impl AddSpecImpl<u16> for ByteSize {
    open spec fn obeys_add_spec() -> bool {
        true
    }

    open spec fn add_req(self, rhs: u16) -> bool {
        self.0 + rhs <= u64::MAX
    }

    open spec fn add_spec(self, rhs: u16) -> ByteSize {
        ByteSize((self.0 + rhs) as u64)
    }
}

impl core::ops::Add<ByteSize> for u16 {
    type Output = ByteSize;

    fn add(self, rhs: ByteSize) -> (sum: ByteSize) {
        ByteSize(rhs.0 + (self as u64))
    }
}

impl AddSpecImpl<ByteSize> for u16 {
    open spec fn obeys_add_spec() -> bool {
        true
    }

    open spec fn add_req(self, rhs: ByteSize) -> bool {
        rhs.0 + self <= u64::MAX
    }

    open spec fn add_spec(self, rhs: ByteSize) -> ByteSize {
        ByteSize((rhs.0 + self) as u64)
    }
}

impl core::ops::Mul<u16> for ByteSize {
    type Output = ByteSize;

    fn mul(self, rhs: u16) -> (product: ByteSize) {
        ByteSize(self.0 * (rhs as u64))
    }
}

impl MulSpecImpl<u16> for ByteSize {
    open spec fn obeys_mul_spec() -> bool {
        true
    }

    open spec fn mul_req(self, rhs: u16) -> bool {
        self.0 * rhs <= u64::MAX
    }

    open spec fn mul_spec(self, rhs: u16) -> ByteSize {
        ByteSize((self.0 * rhs) as u64)
    }
}

impl core::ops::Mul<ByteSize> for u16 {
    type Output = ByteSize;

    fn mul(self, rhs: ByteSize) -> (product: ByteSize) {
        ByteSize(rhs.0 * (self as u64))
    }
}

impl MulSpecImpl<ByteSize> for u16 {
    open spec fn obeys_mul_spec() -> bool {
        true
    }

    open spec fn mul_req(self, rhs: ByteSize) -> bool {
        rhs.0 * self <= u64::MAX
    }

    open spec fn mul_spec(self, rhs: ByteSize) -> ByteSize {
        ByteSize((rhs.0 * self) as u64)
    }
}

impl core::ops::Add<u8> for ByteSize {
    type Output = ByteSize;

    fn add(self, rhs: u8) -> (sum: ByteSize) {
        ByteSize(self.0 + (rhs as u64))
    }
}

impl AddSpecImpl<u8> for ByteSize {
    open spec fn obeys_add_spec() -> bool {
        true
    }

    open spec fn add_req(self, rhs: u8) -> bool {
        self.0 + rhs <= u64::MAX
    }

    open spec fn add_spec(self, rhs: u8) -> ByteSize {
        ByteSize((self.0 + rhs) as u64)
    }
}

impl core::ops::Add<ByteSize> for u8 {
    type Output = ByteSize;

    fn add(self, rhs: ByteSize) -> (sum: ByteSize) {
        ByteSize(rhs.0 + (self as u64))
    }
}

impl AddSpecImpl<ByteSize> for u8 {
    open spec fn obeys_add_spec() -> bool {
        true
    }

    open spec fn add_req(self, rhs: ByteSize) -> bool {
        rhs.0 + self <= u64::MAX
    }

    open spec fn add_spec(self, rhs: ByteSize) -> ByteSize {
        ByteSize((rhs.0 + self) as u64)
    }
}

impl core::ops::Mul<u8> for ByteSize {
    type Output = ByteSize;

    fn mul(self, rhs: u8) -> (product: ByteSize) {
        ByteSize(self.0 * (rhs as u64))
    }
}

impl MulSpecImpl<u8> for ByteSize {
    open spec fn obeys_mul_spec() -> bool {
        true
    }

    open spec fn mul_req(self, rhs: u8) -> bool {
        self.0 * rhs <= u64::MAX
    }

    open spec fn mul_spec(self, rhs: u8) -> ByteSize {
        ByteSize((self.0 * rhs) as u64)
    }
}

impl core::ops::Mul<ByteSize> for u8 {
    type Output = ByteSize;

    fn mul(self, rhs: ByteSize) -> (product: ByteSize) {
        ByteSize(rhs.0 * (self as u64))
    }
}

impl MulSpecImpl<ByteSize> for u8 {
    open spec fn obeys_mul_spec() -> bool {
        true
    }

    open spec fn mul_req(self, rhs: ByteSize) -> bool {
        rhs.0 * self <= u64::MAX
    }

    open spec fn mul_spec(self, rhs: ByteSize) -> ByteSize {
        ByteSize((rhs.0 * self) as u64)
    }
}

} // verus!
