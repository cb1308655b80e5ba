//! Arithmetic on byte-like sizes: sums and differences with another size,
//! sums, differences and products with an unsigned integer, the forms that
//! assign, and the sums and products with the integer on the left. An
//! operation whose result does not fit in 64 bits, or falls below zero, is
//! outside its contract.
//!
//! The contract of each operator that returns a size stands in the impl that
//! follows it: what `add_req`, `sub_req` or `mul_req` says is required of the
//! operands, and what `add_spec`, `sub_spec` or `mul_spec` says is the
//! result. The forms that assign state theirs themselves.

use crate::bytelike_size::ByteSize;
use vstd::prelude::*;
use vstd::std_specs::ops::{AddSpecImpl, MulSpecImpl, SubSpecImpl};

verus! {

impl core::ops::Add<ByteSize> for ByteSize {
    type Output = ByteSize;

    fn add(self, rhs: ByteSize) -> (sum: ByteSize) {
        ByteSize(self.0 + rhs.0)
    }
}

impl AddSpecImpl<ByteSize> for ByteSize {
    open spec fn obeys_add_spec() -> bool {
        true
    }

    open spec fn add_req(self, rhs: ByteSize) -> bool {
        self.0 + rhs.0 <= u64::MAX
    }

    open spec fn add_spec(self, rhs: ByteSize) -> ByteSize {
        ByteSize((self.0 + rhs.0) as u64)
    }
}

impl core::ops::AddAssign<ByteSize> for ByteSize {
    fn add_assign(&mut self, rhs: ByteSize)
        requires
            old(self).0 + rhs.0 <= u64::MAX,
        ensures
            final(self).0 == old(self).0 + rhs.0,
    {
        self.0 = self.0 + rhs.0;
    }
}

impl core::ops::Sub<ByteSize> for ByteSize {
    type Output = ByteSize;

    fn sub(self, rhs: ByteSize) -> (difference: ByteSize) {
        ByteSize(self.0 - rhs.0)
    }
}

impl SubSpecImpl<ByteSize> for ByteSize {
    open spec fn obeys_sub_spec() -> bool {
        true
    }

    open spec fn sub_req(self, rhs: ByteSize) -> bool {
        rhs.0 <= self.0
    }

    open spec fn sub_spec(self, rhs: ByteSize) -> ByteSize {
        ByteSize((self.0 - rhs.0) as u64)
    }
}

impl core::ops::SubAssign<ByteSize> for ByteSize {
    fn sub_assign(&mut self, rhs: ByteSize)
        requires
            rhs.0 <= old(self).0,
        ensures
            final(self).0 == old(self).0 - rhs.0,
    {
        self.0 = self.0 - rhs.0;
    }
}

impl core::ops::Add<u64> for ByteSize {
    type Output = ByteSize;

    fn add(self, rhs: u64) -> (sum: ByteSize) {
        ByteSize(self.0 + rhs)
    }
}

impl AddSpecImpl<u64> for ByteSize {
    open spec fn obeys_add_spec() -> bool {
        true
    }

    open spec fn add_req(self, rhs: u64) -> bool {
        self.0 + rhs <= u64::MAX
    }

    open spec fn add_spec(self, rhs: u64) -> ByteSize {
        ByteSize((self.0 + rhs) as u64)
    }
}

impl core::ops::AddAssign<u64> for ByteSize {
    fn add_assign(&mut self, rhs: u64)
        requires
            old(self).0 + rhs <= u64::MAX,
        ensures
            final(self).0 == old(self).0 + rhs,
    {
        self.0 = self.0 + rhs;
    }
}

impl core::ops::Sub<u64> for ByteSize {
    type Output = ByteSize;

    fn sub(self, rhs: u64) -> (difference: ByteSize) {
        ByteSize(self.0 - rhs)
    }
}

impl SubSpecImpl<u64> for ByteSize {
    open spec fn obeys_sub_spec() -> bool {
        true
    }

    open spec fn sub_req(self, rhs: u64) -> bool {
        rhs <= self.0
    }

    open spec fn sub_spec(self, rhs: u64) -> ByteSize {
        ByteSize((self.0 - rhs) as u64)
    }
}

impl core::ops::SubAssign<u64> for ByteSize {
    fn sub_assign(&mut self, rhs: u64)
        requires
            rhs <= old(self).0,
        ensures
            final(self).0 == old(self).0 - rhs,
    {
        self.0 = self.0 - rhs;
    }
}

impl core::ops::Mul<u64> for ByteSize {
    type Output = ByteSize;

    fn mul(self, rhs: u64) -> (product: ByteSize) {
        ByteSize(self.0 * rhs)
    }
}

impl MulSpecImpl<u64> for ByteSize {
    open spec fn obeys_mul_spec() -> bool {
        true
    }

    open spec fn mul_req(self, rhs: u64) -> bool {
        self.0 * rhs <= u64::MAX
    }

    open spec fn mul_spec(self, rhs: u64) -> ByteSize {
        ByteSize((self.0 * rhs) as u64)
    }
}

impl core::ops::MulAssign<u64> for ByteSize {
    fn mul_assign(&mut self, rhs: u64)
        requires
            old(self).0 * rhs <= u64::MAX,
        ensures
            final(self).0 == old(self).0 * rhs,
    {
        self.0 = self.0 * rhs;
    }
}

impl core::ops::Add<ByteSize> for u64 {
    type Output = ByteSize;

    fn add(self, rhs: ByteSize) -> (sum: ByteSize) {
        ByteSize(rhs.0 + self)
    }
}

impl AddSpecImpl<ByteSize> for u64 {
    open spec fn obeys_add_spec() -> bool {
        true
    }

    open spec fn add_req(self, rhs: ByteSize) -> bool {
        rhs.0 + self <= u64::MAX
    }

    open spec fn add_spec(self, rhs: ByteSize) -> ByteSize {
        ByteSize((rhs.0 + self) as u64)
    }
}

impl core::ops::Mul<ByteSize> for u64 {
    type Output = ByteSize;

    fn mul(self, rhs: ByteSize) -> (product: ByteSize) {
        ByteSize(rhs.0 * self)
    }
}

impl MulSpecImpl<ByteSize> for u64 {
    open spec fn obeys_mul_spec() -> bool {
        true
    }

    open spec fn mul_req(self, rhs: ByteSize) -> bool {
        rhs.0 * self <= u64::MAX
    }

    open spec fn mul_spec(self, rhs: ByteSize) -> ByteSize {
        ByteSize((rhs.0 * self) as u64)
    }
}

impl core::ops::Add<u32> for ByteSize {
    type Output = ByteSize;

    fn add(self, rhs: u32) -> (sum: ByteSize) {
        ByteSize(self.0 + (rhs as u64))
    }
}

impl AddSpecImpl<u32> for ByteSize {
    open spec fn obeys_add_spec() -> bool {
        true
    }

    open spec fn add_req(self, rhs: u32) -> bool {
        self.0 + rhs <= u64::MAX
    }

    open spec fn add_spec(self, rhs: u32) -> ByteSize {
        ByteSize((self.0 + rhs) as u64)
    }
}

impl core::ops::AddAssign<u32> for ByteSize {
    fn add_assign(&mut self, rhs: u32)
        requires
            old(self).0 + rhs <= u64::MAX,
        ensures
            final(self).0 == old(self).0 + rhs,
    {
        self.0 = self.0 + (rhs as u64);
    }
}

impl core::ops::Sub<u32> for ByteSize {
    type Output = ByteSize;

    fn sub(self, rhs: u32) -> (difference: ByteSize) {
        ByteSize(self.0 - (rhs as u64))
    }
}

impl SubSpecImpl<u32> for ByteSize {
    open spec fn obeys_sub_spec() -> bool {
        true
    }

    open spec fn sub_req(self, rhs: u32) -> bool {
        rhs <= self.0
    }

    open spec fn sub_spec(self, rhs: u32) -> ByteSize {
        ByteSize((self.0 - rhs) as u64)
    }
}

impl core::ops::SubAssign<u32> for ByteSize {
    fn sub_assign(&mut self, rhs: u32)
        requires
            rhs <= old(self).0,
        ensures
            final(self).0 == old(self).0 - rhs,
    {
        self.0 = self.0 - (rhs as u64);
    }
}

impl core::ops::Mul<u32> for ByteSize {
    type Output = ByteSize;

    fn mul(self, rhs: u32) -> (product: ByteSize) {
        ByteSize(self.0 * (rhs as u64))
    }
}

impl MulSpecImpl<u32> for ByteSize {
    open spec fn obeys_mul_spec() -> bool {
        true
    }

    open spec fn mul_req(self, rhs: u32) -> bool {
        self.0 * rhs <= u64::MAX
    }

    open spec fn mul_spec(self, rhs: u32) -> ByteSize {
        ByteSize((self.0 * rhs) as u64)
    }
}

impl core::ops::MulAssign<u32> for ByteSize {
    fn mul_assign(&mut self, rhs: u32)
        requires
            old(self).0 * rhs <= u64::MAX,
        ensures
            final(self).0 == old(self).0 * rhs,
    {
        self.0 = self.0 * (rhs as u64);
    }
}

impl core::ops::Add<ByteSize> for u32 {
    type Output = ByteSize;

    fn add(self, rhs: ByteSize) -> (sum: ByteSize) {
        ByteSize(rhs.0 + (self as u64))
    }
}

impl AddSpecImpl<ByteSize> for u32 {
    open spec fn obeys_add_spec() -> bool {
        true
    }

    open spec fn add_req(self, rhs: ByteSize) -> bool {
        rhs.0 + self <= u64::MAX
    }

    open spec fn add_spec(self, rhs: ByteSize) -> ByteSize {
        ByteSize((rhs.0 + self) as u64)
    }
}

impl core::ops::Mul<ByteSize> for u32 {
    type Output = ByteSize;

    fn mul(self, rhs: ByteSize) -> (product: ByteSize) {
        ByteSize(rhs.0 * (self as u64))
    }
}

impl MulSpecImpl<ByteSize> for u32 {
    open spec fn obeys_mul_spec() -> bool {
        true
    }

    open spec fn mul_req(self, rhs: ByteSize) -> bool {
        rhs.0 * self <= u64::MAX
    }

    open spec fn mul_spec(self, rhs: ByteSize) -> ByteSize {
        ByteSize((rhs.0 * self) as u64)
    }
}

impl core::ops::Add<u16> for ByteSize {
    type Output = ByteSize;

    fn add(self, rhs: u16) -> (sum: ByteSize) {
        ByteSize(self.0 + (rhs as u64))
    }
}

impl AddSpecImpl<u16> for ByteSize {
    open spec fn obeys_add_spec() -> bool {
        true
    }

    open spec fn add_req(self, rhs: u16) -> bool {
        self.0 + rhs <= u64::MAX
    }

    open spec fn add_spec(self, rhs: u16) -> ByteSize {
        ByteSize((self.0 + rhs) as u64)
    }
}

impl core::ops::AddAssign<u16> for ByteSize {
    fn add_assign(&mut self, rhs: u16)
        requires
            old(self).0 + rhs <= u64::MAX,
        ensures
            final(self).0 == old(self).0 + rhs,
    {
        self.0 = self.0 + (rhs as u64);
    }
}

impl core::ops::Sub<u16> for ByteSize {
    type Output = ByteSize;

    fn sub(self, rhs: u16) -> (difference: ByteSize) {
        ByteSize(self.0 - (rhs as u64))
    }
}

impl SubSpecImpl<u16> for ByteSize {
    open spec fn obeys_sub_spec() -> bool {
        true
    }

    open spec fn sub_req(self, rhs: u16) -> bool {
        rhs <= self.0
    }

    open spec fn sub_spec(self, rhs: u16) -> ByteSize {
        ByteSize((self.0 - rhs) as u64)
    }
}

impl core::ops::SubAssign<u16> for ByteSize {
    fn sub_assign(&mut self, rhs: u16)
        requires
            rhs <= old(self).0,
        ensures
            final(self).0 == old(self).0 - rhs,
    {
        self.0 = self.0 - (rhs as u64);
    }
}

impl core::ops::Mul<u16> for ByteSize {
    type Output = ByteSize;

    fn mul(self, rhs: u16) -> (product: ByteSize) {
        ByteSize(self.0 * (rhs as u64))
    }
}

impl MulSpecImpl<u16> for ByteSize {
    open spec fn obeys_mul_spec() -> bool {
        true
    }

    open spec fn mul_req(self, rhs: u16) -> bool {
        self.0 * rhs <= u64::MAX
    }

    open spec fn mul_spec(self, rhs: u16) -> ByteSize {
        ByteSize((self.0 * rhs) as u64)
    }
}

impl core::ops::MulAssign<u16> for ByteSize {
    fn mul_assign(&mut self, rhs: u16)
        requires
            old(self).0 * rhs <= u64::MAX,
        ensures
            final(self).0 == old(self).0 * rhs,
    {
        self.0 = self.0 * (rhs as u64);
    }
}

impl core::ops::Add<ByteSize> for u16 {
    type Output = ByteSize;

    fn add(self, rhs: ByteSize) -> (sum: ByteSize) {
        ByteSize(rhs.0 + (self as u64))
    }
}

impl AddSpecImpl<ByteSize> for u16 {
    open spec fn obeys_add_spec() -> bool {
        true
    }

    open spec fn add_req(self, rhs: ByteSize) -> bool {
        rhs.0 + self <= u64::MAX
    }

    open spec fn add_spec(self, rhs: ByteSize) -> ByteSize {
        ByteSize((rhs.0 + self) as u64)
    }
}

impl core::ops::Mul<ByteSize> for u16 {
    type Output = ByteSize;

    fn mul(self, rhs: ByteSize) -> (product: ByteSize) {
        ByteSize(rhs.0 * (self as u64))
    }
}

impl MulSpecImpl<ByteSize> for u16 {
    open spec fn obeys_mul_spec() -> bool {
        true
    }

    open spec fn mul_req(self, rhs: ByteSize) -> bool {
        rhs.0 * self <= u64::MAX
    }

    open spec fn mul_spec(self, rhs: ByteSize) -> ByteSize {
        ByteSize((rhs.0 * self) as u64)
    }
}

impl core::ops::Add<u8> for ByteSize {
    type Output = ByteSize;

    fn add(self, rhs: u8) -> (sum: ByteSize) {
        ByteSize(self.0 + (rhs as u64))
    }
}

impl AddSpecImpl<u8> for ByteSize {
    open spec fn obeys_add_spec() -> bool {
        true
    }

    open spec fn add_req(self, rhs: u8) -> bool {
        self.0 + rhs <= u64::MAX
    }

    open spec fn add_spec(self, rhs: u8) -> ByteSize {
        ByteSize((self.0 + rhs) as u64)
    }
}

impl core::ops::AddAssign<u8> for ByteSize {
    fn add_assign(&mut self, rhs: u8)
        requires
            old(self).0 + rhs <= u64::MAX,
        ensures
            final(self).0 == old(self).0 + rhs,
    {
        self.0 = self.0 + (rhs as u64);
    }
}

impl core::ops::Sub<u8> for ByteSize {
    type Output = ByteSize;

    fn sub(self, rhs: u8) -> (difference: ByteSize) {
        ByteSize(self.0 - (rhs as u64))
    }
}

impl SubSpecImpl<u8> for ByteSize {
    open spec fn obeys_sub_spec() -> bool {
        true
    }

    open spec fn sub_req(self, rhs: u8) -> bool {
        rhs <= self.0
    }

    open spec fn sub_spec(self, rhs: u8) -> ByteSize {
        ByteSize((self.0 - rhs) as u64)
    }
}

impl core::ops::SubAssign<u8> for ByteSize {
    fn sub_assign(&mut self, rhs: u8)
        requires
            rhs <= old(self).0,
        ensures
            final(self).0 == old(self).0 - rhs,
    {
        self.0 = self.0 - (rhs as u64);
    }
}

impl core::ops::Mul<u8> for ByteSize {
    type Output = ByteSize;

    fn mul(self, rhs: u8) -> (product: ByteSize) {
        ByteSize(self.0 * (rhs as u64))
    }
}

impl MulSpecImpl<u8> for ByteSize {
    open spec fn obeys_mul_spec() -> bool {
        true
    }

    open spec fn mul_req(self, rhs: u8) -> bool {
        self.0 * rhs <= u64::MAX
    }

    open spec fn mul_spec(self, rhs: u8) -> ByteSize {
        ByteSize((self.0 * rhs) as u64)
    }
}

impl core::ops::MulAssign<u8> for ByteSize {
    fn mul_assign(&mut self, rhs: u8)
        requires
            old(self).0 * rhs <= u64::MAX,
        ensures
            final(self).0 == old(self).0 * rhs,
    {
        self.0 = self.0 * (rhs as u64);
    }
}

impl core::ops::Add<ByteSize> for u8 {
    type Output = ByteSize;

    fn add(self, rhs: ByteSize) -> (sum: ByteSize) {
        ByteSize(rhs.0 + (self as u64))
    }
}

impl AddSpecImpl<ByteSize> for u8 {
    open spec fn obeys_add_spec() -> bool {
        true
    }

    open spec fn add_req(self, rhs: ByteSize) -> bool {
        rhs.0 + self <= u64::MAX
    }

    open spec fn add_spec(self, rhs: ByteSize) -> ByteSize {
        ByteSize((rhs.0 + self) as u64)
    }
}

impl core::ops::Mul<ByteSize> for u8 {
    type Output = ByteSize;

    fn mul(self, rhs: ByteSize) -> (product: ByteSize) {
        ByteSize(rhs.0 * (self as u64))
    }
}

impl MulSpecImpl<ByteSize> for u8 {
    open spec fn obeys_mul_spec() -> bool {
        true
    }

    open spec fn mul_req(self, rhs: ByteSize) -> bool {
        rhs.0 * self <= u64::MAX
    }

    open spec fn mul_spec(self, rhs: ByteSize) -> ByteSize {
        ByteSize((rhs.0 * self) as u64)
    }
}

} // verus!
