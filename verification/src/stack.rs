//! A bounded stack of values, and the arithmetic of a stack machine over `i64`.
//!
//! A stack is modelled by the sequence of its live values, bottom first. Every
//! operation is described by a function on such sequences (`*_model`), which
//! gives the values afterwards together with the result of the call. An
//! operation that fails part-way keeps what it had done so far: nothing is
//! rolled back.

use vstd::prelude::*;

verus! {

/// Why a stack operation failed.
#[derive(Debug, Clone, Copy, PartialEq, Eq, Structural)]
pub enum Error {
    /// A push was attempted on a full stack.
    Overflow,
    /// A value was needed from an empty stack.
    Underflow,
    /// The divisor of a division was zero.
    DivisionByZero,
}

/// The number of values a stack can hold.
pub const CAPACITY: usize = 100;

/// A stack of at most [`CAPACITY`] values.
#[derive(Debug)]
pub struct Stack<T> {
    items: [T; 100],
    top: usize,
}

impl<T> View for Stack<T> {
    type V = Seq<T>;

    /// The live values, bottom first.
    closed spec fn view(&self) -> Seq<T> {
        self.items@.take(self.top as int)
    }
}

impl<T> Stack<T> {
    #[verifier::type_invariant]
    spec fn well_formed(self) -> bool {
        self.top <= CAPACITY
    }
}

impl<T: Copy> Clone for Stack<T> {
    /// A stack with the same values.
    fn clone(&self) -> (s: Self)
        ensures
            s@ == self@,
    {
        proof {
            use_type_invariant(self);
        }
        Stack { items: self.items, top: self.top }
    }
}

/// `push`: the item goes on top, unless the stack is full.
pub open spec fn push_model<T>(s: Seq<T>, item: T) -> (Seq<T>, Result<(), Error>) {
    if s.len() < CAPACITY {
        (s.push(item), Ok(()))
    } else {
        (s, Err(Error::Overflow))
    }
}

/// `pop`: the top value leaves, unless there is none.
pub open spec fn pop_model<T>(s: Seq<T>) -> (Seq<T>, Result<T, Error>) {
    if s.len() > 0 {
        (s.drop_last(), Ok(s.last()))
    } else {
        (s, Err(Error::Underflow))
    }
}

/// `peek`: the top value, which stays.
pub open spec fn peek_model<T>(s: Seq<T>) -> Result<T, Error> {
    if s.len() > 0 {
        Ok(s.last())
    } else {
        Err(Error::Underflow)
    }
}

/// `dup`: the top value is pushed once more.
pub open spec fn dup_model<T>(s: Seq<T>) -> (Seq<T>, Result<(), Error>) {
    if s.len() == 0 {
        (s, Err(Error::Underflow))
    } else {
        push_model(s, s.last())
    }
}

/// What is left when an operation that takes `needed` values finds fewer: it
/// has popped them all before it fails.
pub open spec fn starved<T>(s: Seq<T>, needed: nat) -> (Seq<T>, Result<(), Error>)
    recommends
        s.len() < needed,
{
    (Seq::empty(), Err(Error::Underflow))
}

/// `swap`: the two topmost values change places.
pub open spec fn swap_model<T>(s: Seq<T>) -> (Seq<T>, Result<(), Error>) {
    let n = s.len() as int;
    if n < 2 {
        starved(s, 2)
    } else {
        (s.take(n - 2).push(s[n - 1]).push(s[n - 2]), Ok(()))
    }
}

/// `over`: a copy of the second value from the top is pushed. On a full stack
/// the copy does not fit, and the stack is as before.
pub open spec fn over_model<T>(s: Seq<T>) -> (Seq<T>, Result<(), Error>) {
    let n = s.len() as int;
    if n < 2 {
        starved(s, 2)
    } else {
        push_model(s, s[n - 2])
    }
}

/// `rot`: the top value moves below the two under it, which keep their order.
pub open spec fn rot_model<T>(s: Seq<T>) -> (Seq<T>, Result<(), Error>) {
    let n = s.len() as int;
    if n < 3 {
        starved(s, 3)
    } else {
        (s.take(n - 3).push(s[n - 1]).push(s[n - 3]).push(s[n - 2]), Ok(()))
    }
}

/// An operation that replaces the two topmost values, `lower` under `upper`,
/// by `f(lower, upper)`.
pub open spec fn binary_model(s: Seq<i64>, f: spec_fn(i64, i64) -> i64) -> (
    Seq<i64>,
    Result<(), Error>,
) {
    let n = s.len() as int;
    if n < 2 {
        starved(s, 2)
    } else {
        (s.take(n - 2).push(f(s[n - 2], s[n - 1])), Ok(()))
    }
}

/// `add`: the sum of the two topmost values, wrapped to 64 bits.
pub open spec fn add_model(s: Seq<i64>) -> (Seq<i64>, Result<(), Error>) {
    binary_model(s, |lower: i64, upper: i64| upper.wrapping_add(lower))
}

/// `sub`: the second value less the top one, wrapped to 64 bits.
pub open spec fn sub_model(s: Seq<i64>) -> (Seq<i64>, Result<(), Error>) {
    binary_model(s, |lower: i64, upper: i64| lower.wrapping_sub(upper))
}

/// `mul`: the product of the two topmost values, wrapped to 64 bits.
pub open spec fn mul_model(s: Seq<i64>) -> (Seq<i64>, Result<(), Error>) {
    binary_model(s, |lower: i64, upper: i64| upper.wrapping_mul(lower))
}

/// How a truth value is stored: all bits set for true, zero for false.
pub open spec fn flag(b: bool) -> i64 {
    if b {
        -1i64
    } else {
        0i64
    }
}

/// `equals`: the flag of the two topmost values being equal.
pub open spec fn equals_model(s: Seq<i64>) -> (Seq<i64>, Result<(), Error>) {
    binary_model(s, |lower: i64, upper: i64| flag(upper == lower))
}

/// `gt`: the flag of the second value being greater than the top one.
pub open spec fn gt_model(s: Seq<i64>) -> (Seq<i64>, Result<(), Error>) {
    binary_model(s, |lower: i64, upper: i64| flag(lower > upper))
}

/// `lt`: the flag of the second value being less than the top one.
pub open spec fn lt_model(s: Seq<i64>) -> (Seq<i64>, Result<(), Error>) {
    binary_model(s, |lower: i64, upper: i64| flag(lower < upper))
}

/// The integer nearest to zero from the exact quotient of `x` by `d`.
pub open spec fn truncated_quotient(x: int, d: int) -> int
    recommends
        d != 0,
{
    if x >= 0 && d > 0 {
        x / d
    } else if x >= 0 {
        -(x / (-d))
    } else if d > 0 {
        -((-x) / d)
    } else {
        (-x) / (-d)
    }
}

/// Dividing by a negative number negates the quotient by its magnitude.
proof fn lemma_negative_divisor(x: int, d: int)
    requires
        x >= 0,
        d < 0,
    ensures
        x / d == -(x / (-d)),
{
    let q = x / (-d);
    let r = x % (-d);
    vstd::arithmetic::div_mod::lemma_fundamental_div_mod(x, -d);
    vstd::arithmetic::div_mod::lemma_mod_bound(x, -d);
    assert(x == d * (-q) + r) by (nonlinear_arith)
        requires
            x == (-d) * q + r,
    ;
    assert(x / d == -q) by (nonlinear_arith)
        requires
            x == d * (-q) + r,
            0 <= r < -d,
            d < 0,
    ;
}

/// The quotient that `div` pushes: truncated, and wrapped in the one case
/// where it does not fit, `i64::MIN` divided by -1.
pub open spec fn quotient(lower: i64, upper: i64) -> i64
    recommends
        upper != 0,
{
    if lower == i64::MIN && upper == -1 {
        i64::MIN
    } else {
        truncated_quotient(lower as int, upper as int) as i64
    }
}

/// `div`: the second value divided by the top one. A zero divisor is
/// reported once both values have been popped.
pub open spec fn div_model(s: Seq<i64>) -> (Seq<i64>, Result<(), Error>) {
    let n = s.len() as int;
    if n < 2 {
        starved(s, 2)
    } else if s[n - 1] == 0 {
        (s.take(n - 2), Err(Error::DivisionByZero))
    } else {
        (s.take(n - 2).push(quotient(s[n - 2], s[n - 1])), Ok(()))
    }
}

impl<T: Copy> Stack<T> {
    /// An empty stack. `filler` occupies the unused slots and is never read
    /// as a value.
    pub fn new(filler: T) -> (s: Self)
        ensures
            s@ == Seq::<T>::empty(),
    {
        Stack { items: [filler;100], top: 0 }
    }

    /// The number of values that the stack can hold.
    pub fn capacity(&self) -> (n: usize)
        ensures
            n == CAPACITY,
    {
        CAPACITY
    }

    /// The number of live values.
    pub fn len(&self) -> (n: usize)
        ensures
            n == self@.len(),
            n <= CAPACITY,
    {
        proof {
            use_type_invariant(self);
        }
        self.top
    }

    /// The value at `index`, counted from the bottom.
    pub fn get(&self, index: usize) -> (r: Option<T>)
        ensures
            r == if index < self@.len() {
                Some(self@[index as int])
            } else {
                None
            },
    {
        proof {
            use_type_invariant(self);
        }
        if index < self.top {
            Some(self.items[index])
        } else {
            None
        }
    }

    /// Puts `item` on top; `Overflow` on a full stack, which stays as it is.
    pub fn push(&mut self, item: T) -> (r: Result<(), Error>)
        ensures
            (final(self)@, r) == push_model(old(self)@, item),
    {
        proof {
            use_type_invariant(&*self);
        }
        if self.top >= CAPACITY {
            return Err(Error::Overflow);
        }
        self.items[self.top] = item;
        self.top += 1;
        Ok(())
    }

    /// Takes the top value off; `Underflow` on an empty stack.
    pub fn pop(&mut self) -> (r: Result<T, Error>)
        ensures
            (final(self)@, r) == pop_model(old(self)@),
    {
        proof {
            use_type_invariant(&*self);
        }
        if self.top == 0 {
            return Err(Error::Underflow);
        }
        self.top -= 1;
        Ok(self.items[self.top])
    }

    /// The top value, which stays; `Underflow` on an empty stack.
    pub fn peek(&self) -> (r: Result<T, Error>)
        ensures
            r == peek_model(self@),
    {
        proof {
            use_type_invariant(self);
        }
        if self.top == 0 {
            return Err(Error::Underflow);
        }
        Ok(self.items[self.top - 1])
    }

    /// Pushes a copy of the top value.
    pub fn dup(&mut self) -> (r: Result<(), Error>)
        ensures
            (final(self)@, r) == dup_model(old(self)@),
    {
        let a = self.peek()?;
        self.push(a)
    }

    /// Exchanges the two topmost values.
    pub fn swap(&mut self) -> (r: Result<(), Error>)
        ensures
            (final(self)@, r) == swap_model(old(self)@),
    {
        proof {
            use_type_invariant(&*self);
        }
        let a = self.pop()?;
        let b = self.pop()?;
        self.push(a)?;
        self.push(b)?;
        Ok(())
    }

    /// Pushes a copy of the second value from the top.
    pub fn over(&mut self) -> (r: Result<(), Error>)
        ensures
            (final(self)@, r) == over_model(old(self)@),
    {
        proof {
            use_type_invariant(&*self);
        }
        let a = self.pop()?;
        let b = self.pop()?;
        self.push(b)?;
        self.push(a)?;
        self.push(b)?;
        Ok(())
    }

    /// Moves the top value below the two under it.
    pub fn rot(&mut self) -> (r: Result<(), Error>)
        ensures
            (final(self)@, r) == rot_model(old(self)@),
    {
        proof {
            use_type_invariant(&*self);
        }
        let a = self.pop()?;
        let b = self.pop()?;
        let c = self.pop()?;
        self.push(a)?;
        self.push(c)?;
        self.push(b)?;
        Ok(())
    }
}

impl Stack<i64> {
    /// Replaces the two topmost values by their sum, wrapped to 64 bits.
    pub fn add(&mut self) -> (r: Result<(), Error>)
        ensures
            (final(self)@, r) == add_model(old(self)@),
    {
        proof {
            use_type_invariant(&*self);
        }
        let a = self.pop()?;
        let b = self.pop()?;
        self.push(a.wrapping_add(b))?;
        Ok(())
    }

    /// Replaces the two topmost values by the second less the top one,
    /// wrapped to 64 bits.
    pub fn sub(&mut self) -> (r: Result<(), Error>)
        ensures
            (final(self)@, r) == sub_model(old(self)@),
    {
        proof {
            use_type_invariant(&*self);
        }
        let a = self.pop()?;
        let b = self.pop()?;
        self.push(b.wrapping_sub(a))?;
        Ok(())
    }

    /// Replaces the two topmost values by their product, wrapped to 64 bits.
    pub fn mul(&mut self) -> (r: Result<(), Error>)
        ensures
            (final(self)@, r) == mul_model(old(self)@),
    {
        proof {
            use_type_invariant(&*self);
        }
        let a = self.pop()?;
        let b = self.pop()?;
        self.push(a.wrapping_mul(b))?;
        Ok(())
    }

    /// Replaces the two topmost values by the second divided by the top one.
    pub fn div(&mut self) -> (r: Result<(), Error>)
        ensures
            (final(self)@, r) == div_model(old(self)@),
    {
        proof {
            use_type_invariant(&*self);
        }
        let a = self.pop()?;
        let b = self.pop()?;
        if a == 0 {
            return Err(Error::DivisionByZero);
        }
        let q = if b == i64::MIN && a == -1 {
            i64::MIN
        } else {
            proof {
                if a < 0 && b >= 0 {
                    lemma_negative_divisor(b as int, a as int);
                } else if a < 0 {
                    lemma_negative_divisor(-b, a as int);
                }
            }
            b / a
        };
        self.push(q)?;
        Ok(())
    }

    /// Replaces the two topmost values by the flag of their being equal.
    pub fn equals(&mut self) -> (r: Result<(), Error>)
        ensures
            (final(self)@, r) == equals_model(old(self)@),
    {
        proof {
            use_type_invariant(&*self);
        }
        let a = self.pop()?;
        let b = self.pop()?;
        if a == b {
            self.push(-1)?;
        } else {
            self.push(0)?;
        }
        Ok(())
    }

    /// Replaces the two topmost values by the flag of the second being
    /// greater than the top one.
    pub fn gt(&mut self) -> (r: Result<(), Error>)
        ensures
            (final(self)@, r) == gt_model(old(self)@),
    {
        proof {
            use_type_invariant(&*self);
        }
        let a = self.pop()?;
        let b = self.pop()?;
        if b > a {
            self.push(-1)?;
        } else {
            self.push(0)?;
        }
        Ok(())
    }

    /// Replaces the two topmost values by the flag of the second being less
    /// than the top one.
    pub fn lt(&mut self) -> (r: Result<(), Error>)
        ensures
            (final(self)@, r) == lt_model(old(self)@),
    {
        proof {
            use_type_invariant(&*self);
        }
        let a = self.pop()?;
        let b = self.pop()?;
        if b < a {
            self.push(-1)?;
        } else {
            self.push(0)?;
        }
        Ok(())
    }
}

/// The arithmetic wraps only what does not fit: where the exact sum,
/// difference or product lies within `i64`, it is the value that is pushed.
pub proof fn lemma_arithmetic_is_exact(lower: i64, upper: i64)
    ensures
        i64::MIN <= lower + upper <= i64::MAX ==> upper.wrapping_add(lower) == lower + upper,
        i64::MIN <= lower - upper <= i64::MAX ==> lower.wrapping_sub(upper) == lower - upper,
        i64::MIN <= lower * upper <= i64::MAX ==> upper.wrapping_mul(lower) == lower * upper,
{
    let product = upper * lower;
    assert(product == lower * upper) by (nonlinear_arith)
        requires
            product == upper * lower,
    ;
    if i64::MIN <= product <= i64::MAX {
        if product < 0 {
            vstd::arithmetic::div_mod::lemma_small_mod(
                (product + 0x1_0000_0000_0000_0000) as nat,
                0x1_0000_0000_0000_0000,
            );
            vstd::arithmetic::div_mod::lemma_mod_add_multiples_vanish(
                product,
                0x1_0000_0000_0000_0000,
            );
        } else {
            vstd::arithmetic::div_mod::lemma_small_mod(product as nat, 0x1_0000_0000_0000_0000);
        }
    }
}

/// The values after each of `items` has been pushed in turn, the pushes that
/// do not fit being lost.
pub open spec fn push_all_model<T>(s: Seq<T>, items: Seq<T>) -> Seq<T>
    decreases items.len(),
{
    if items.len() == 0 {
        s
    } else {
        push_all_model(push_model(s, items.first()).0, items.drop_first())
    }
}

/// What `count` pops in a row leave, and the values they return, in the order
/// in which they come out. The pops end early where the stack runs empty.
pub open spec fn pop_all_model<T>(s: Seq<T>, count: nat) -> (Seq<T>, Seq<T>)
    decreases count,
{
    if count == 0 || s.len() == 0 {
        (s, Seq::empty())
    } else {
        let (rest, out) = pop_all_model(pop_model(s).0, (count - 1) as nat);
        (rest, seq![s.last()] + out)
    }
}

/// Last in, first out: pushes that fit lie on the stack in the order in which
/// they were made, and as many pops hand them back latest first, and leave
/// the stack as it was before the pushes.
pub proof fn lemma_last_in_first_out<T>(s: Seq<T>, items: Seq<T>)
    requires
        s.len() + items.len() <= CAPACITY,
    ensures
        push_all_model(s, items) == s + items,
        pop_all_model(s + items, items.len()) == (s, items.reverse()),
    decreases items.len(),
{
    if items.len() > 0 {
        // the pushes, first to last
        lemma_last_in_first_out(s.push(items.first()), items.drop_first());
        // the pops, last to first
        lemma_last_in_first_out(s, items.drop_last());
        assert((s + items).drop_last() =~= s + items.drop_last());
    }
}

} // verus!
