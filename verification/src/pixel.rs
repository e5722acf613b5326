use crate::sealed::Sealed;
use vstd::prelude::*;

verus! {

/// The mathematical model of a component type. The set of component types is
/// closed: `u8`, `u16`, `u32`, `u64` and `u128`.
///
/// Every component stands for a natural number, `value`, between zero and the
/// `limit` of its type; `of_value` names the component that stands for a number.
pub trait ComponentModel: Copy + Sized + Sealed {
    /// The number that this component stands for.
    spec fn value(self) -> nat;

    /// The largest number that a component of this type can stand for.
    spec fn limit() -> nat;

    /// The component that stands for `n`; meaningful for `n <= limit()`.
    spec fn of_value(n: nat) -> Self;

    /// Every number up to the limit has exactly one component, and every
    /// component stands for such a number.
    proof fn lemma_value_bijection(c: Self, n: nat)
        ensures
            c.value() <= Self::limit(),
            Self::of_value(c.value()) == c,
            n <= Self::limit() ==> Self::of_value(n).value() == n,
    ;
}

/// A numeric type that can hold one channel of a pixel: it has a zero, a
/// fallback value, and a lossy cast to and from every other component type.
pub trait PixelComponent: ComponentModel {
    type Container;

    /// The zero of the type.
    fn zero() -> (r: Self)
        ensures
            r == Self::of_value(0),
    ;

    /// The value that takes the place of a cast that cannot be represented.
    fn fallback() -> (r: Self)
        ensures
            r == Self::of_value(0),
    ;

    /// This component in the widest component type.
    fn widest(self) -> (r: u128)
        ensures
            r == self.value(),
    ;

    /// The component that stands for `n`, where the type can hold it.
    fn narrowed(n: u128) -> (r: Option<Self>)
        ensures
            r == (if n <= Self::limit() {
                Some(Self::of_value(n as nat))
            } else {
                None
            }),
    ;
}

/// What a numeric cast of the number `n` into `D` gives: the component for `n`
/// where `D` can hold it, nothing otherwise.
pub open spec fn narrowed_value<D: ComponentModel>(n: nat) -> Option<D> {
    if n <= D::limit() {
        Some(D::of_value(n))
    } else {
        None
    }
}

/// What a numeric cast of `c` into `D` gives.
pub open spec fn cast_value<S: ComponentModel, D: ComponentModel>(c: S) -> Option<D> {
    narrowed_value::<D>(c.value())
}

/// The cast of `c` into `D`, with zero standing in for a number that `D`
/// cannot hold.
pub open spec fn cast_or_default_value<S: ComponentModel, D: ComponentModel>(c: S) -> D {
    match cast_value::<S, D>(c) {
        Some(d) => d,
        None => D::of_value(0),
    }
}

/// `num_traits::Zero::zero` for a component type. Trusted, not proved: the
/// result is the component that stands for zero. Component types are the
/// unsigned integer types only, whose impls in `num_traits` return the literal 0.
#[verifier::external_body]
fn zero_of<T: ComponentModel + num_traits::Zero>() -> (r: T)
    ensures
        r == T::of_value(0),
{
    <T as num_traits::Zero>::zero()
}

/// `num_traits::NumCast::from` with a `u128` source. Trusted, not proved: the
/// result is the component for the same number where the destination can hold
/// it, and `None` otherwise. Component types are the unsigned integer types
/// only; for them `from` forwards to `ToPrimitive::to_u8` .. `to_u128` of `u128`,
/// which give `Some` of the same number when it is at most the destination's
/// `MAX`, and `None` otherwise.
#[verifier::external_body]
fn narrowed_of<D: ComponentModel + num_traits::NumCast>(n: u128) -> (r: Option<D>)
    ensures
        r == narrowed_value::<D>(n as nat),
{
    <D as num_traits::NumCast>::from(n)
}

/// Casts one component into another component type; `None` where the
/// destination cannot hold the number.
pub fn cast<S: PixelComponent, D: PixelComponent>(c: S) -> (r: Option<D>)
    ensures
        r == cast_value::<S, D>(c),
{
    D::narrowed(c.widest())
}

/// Casts one component into another component type, with the destination's
/// fallback value where it cannot hold the number.
pub fn cast_or_default<S: PixelComponent, D: PixelComponent>(c: S) -> (r: D)
    ensures
        r == cast_or_default_value::<S, D>(c),
{
    match cast::<S, D>(c) {
        Some(d) => d,
        None => D::fallback(),
    }
}

impl ComponentModel for u8 {
    open spec fn value(self) -> nat {
        self as nat
    }

    open spec fn limit() -> nat {
        0xff
    }

    open spec fn of_value(n: nat) -> u8 {
        n as u8
    }

    proof fn lemma_value_bijection(c: u8, n: nat) {
    }
}

impl PixelComponent for u8 {
    type Container = u8;

    fn zero() -> (r: u8) {
        zero_of::<u8>()
    }

    fn fallback() -> (r: u8) {
        u8::default()
    }

    fn widest(self) -> (r: u128) {
        self as u128
    }

    fn narrowed(n: u128) -> (r: Option<u8>) {
        narrowed_of::<u8>(n)
    }
}

impl ComponentModel for u16 {
    open spec fn value(self) -> nat {
        self as nat
    }

    open spec fn limit() -> nat {
        0xffff
    }

    open spec fn of_value(n: nat) -> u16 {
        n as u16
    }

    proof fn lemma_value_bijection(c: u16, n: nat) {
    }
}

impl PixelComponent for u16 {
    type Container = u16;

    fn zero() -> (r: u16) {
        zero_of::<u16>()
    }

    fn fallback() -> (r: u16) {
        u16::default()
    }

    fn widest(self) -> (r: u128) {
        self as u128
    }

    fn narrowed(n: u128) -> (r: Option<u16>) {
        narrowed_of::<u16>(n)
    }
}

impl ComponentModel for u32 {
    open spec fn value(self) -> nat {
        self as nat
    }

    open spec fn limit() -> nat {
        0xffff_ffff
    }

    open spec fn of_value(n: nat) -> u32 {
        n as u32
    }

    proof fn lemma_value_bijection(c: u32, n: nat) {
    }
}

impl PixelComponent for u32 {
    type Container = u32;

    fn zero() -> (r: u32) {
        zero_of::<u32>()
    }

    fn fallback() -> (r: u32) {
        u32::default()
    }

    fn widest(self) -> (r: u128) {
        self as u128
    }

    fn narrowed(n: u128) -> (r: Option<u32>) {
        narrowed_of::<u32>(n)
    }
}

impl ComponentModel for u64 {
    open spec fn value(self) -> nat {
        self as nat
    }

    open spec fn limit() -> nat {
        0xffff_ffff_ffff_ffff
    }

    open spec fn of_value(n: nat) -> u64 {
        n as u64
    }

    proof fn lemma_value_bijection(c: u64, n: nat) {
    }
}

impl PixelComponent for u64 {
    type Container = u64;

    fn zero() -> (r: u64) {
        zero_of::<u64>()
    }

    fn fallback() -> (r: u64) {
        u64::default()
    }

    fn widest(self) -> (r: u128) {
        self as u128
    }

    fn narrowed(n: u128) -> (r: Option<u64>) {
        narrowed_of::<u64>(n)
    }
}

impl ComponentModel for u128 {
    open spec fn value(self) -> nat {
        self as nat
    }

    open spec fn limit() -> nat {
        0xffff_ffff_ffff_ffff_ffff_ffff_ffff_ffff
    }

    open spec fn of_value(n: nat) -> u128 {
        n as u128
    }

    proof fn lemma_value_bijection(c: u128, n: nat) {
    }
}

impl PixelComponent for u128 {
    type Container = u128;

    fn zero() -> (r: u128) {
        zero_of::<u128>()
    }

    fn fallback() -> (r: u128) {
        u128::default()
    }

    fn widest(self) -> (r: u128) {
        self as u128
    }

    fn narrowed(n: u128) -> (r: Option<u128>) {
        narrowed_of::<u128>(n)
    }
}

/// The layout facts and raw storage that every pixel container exposes.
pub trait PixelContainer {
    type OnePixel;

    type PixelBuffer;

    type OnePlane;

    const HAS_ALPHA: bool;

    const NUM_COMPONENTS: usize;

    /// The raw storage as a value.
    spec fn storage(&self) -> Self::PixelBuffer;

    /// The index of the alpha channel, which is the last one, where there is one.
    fn alpha_idx() -> (r: Option<usize>)
        requires
            Self::NUM_COMPONENTS >= 1,
        ensures
            r == (if Self::HAS_ALPHA {
                Some((Self::NUM_COMPONENTS - 1) as usize)
            } else {
                None
            }),
    ;

    /// The number of channels that are not the alpha channel.
    fn num_nonalpha_components() -> (r: usize)
        requires
            Self::NUM_COMPONENTS >= 1,
        ensures
            r == (if Self::HAS_ALPHA {
                Self::NUM_COMPONENTS - 1
            } else {
                Self::NUM_COMPONENTS as int
            }),
    ;

    /// Read access to the raw storage.
    fn pixels(&self) -> (r: &Self::PixelBuffer)
        ensures
            *r == self.storage(),
    ;

    /// Write access to the raw storage: what the caller leaves behind the
    /// reference is the container's new storage.
    fn pixels_mut(&mut self) -> (r: &mut Self::PixelBuffer)
        ensures
            *r == old(self).storage(),
            final(self).storage() == *final(r),
    ;
}

} // verus!
