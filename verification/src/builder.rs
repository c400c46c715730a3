//! A fluent accumulator for the unsigned counts the conversion formulas work
//! with.
//!
//! A [`Builder`] chains arithmetic steps on a current value while keeping the
//! history of earlier values, and hands the final value out through
//! [`Builder::build`]. Random values come from the rand crate behind trusted
//! items.

use rand::Rng;
use vstd::prelude::*;

verus! {

/// Relies on rand::random: a value drawn from the thread-local generator;
/// nothing can be promised of it.
#[verifier::external_body]
fn random_u64() -> u64 {
    rand::random()
}

/// Relies on rand's `thread_rng().gen_range` on a half-open range: it panics
/// on an empty range, and otherwise returns a value within the range.
#[verifier::external_body]
fn random_u64_in(lo: u64, hi: u64) -> (r: u64)
    requires
        lo < hi,
    ensures
        lo <= r < hi,
{
    rand::thread_rng().gen_range(lo..hi)
}

/// A builder for chained arithmetic on an unsigned value.
///
/// Each step pushes the value it replaces onto the history, so the whole
/// computation can be read back through [`Builder::all`].
#[derive(Debug)]
pub struct Builder {
    current: u64,
    previous: Vec<u64>,
}

impl Builder {
    /// The value the chain has reached.
    pub closed spec fn spec_current(self) -> u64 {
        self.current
    }

    /// The earlier values, oldest first.
    pub closed spec fn spec_previous(self) -> Seq<u64> {
        self.previous@
    }

    /// Starts a chain at the given value, with an empty history.
    pub fn new(initial_value: u64) -> (r: Self)
        ensures
            r.spec_current() == initial_value,
            r.spec_previous() == Seq::<u64>::empty(),
    {
        Self { current: initial_value, previous: vec![] }
    }

    /// Starts a fresh chain at another builder's final value.
    pub fn from(builder: Builder) -> (r: Self)
        ensures
            r.spec_current() == builder.spec_current(),
            r.spec_previous() == Seq::<u64>::empty(),
    {
        Self::new(builder.build())
    }

    /// Adds an amount to the current value.
    pub fn add(self, amount: u64) -> (r: Self)
        requires
            self.spec_current() + amount <= u64::MAX,
        ensures
            r.spec_current() == self.spec_current() + amount,
            r.spec_previous() == self.spec_previous().push(self.spec_current()),
    {
        let mut this = self;
        let current = this.current;
        this.previous.push(current);
        this.current = current + amount;
        this
    }

    /// Adds another builder's final value.
    pub fn add_from_builder(self, builder: Builder) -> (r: Self)
        requires
            self.spec_current() + builder.spec_current() <= u64::MAX,
        ensures
            r.spec_current() == self.spec_current() + builder.spec_current(),
            r.spec_previous() == self.spec_previous().push(self.spec_current()),
    {
        let amount = builder.build();
        self.add(amount)
    }

    /// Subtracts an amount from the current value.
    pub fn subtract(self, amount: u64) -> (r: Self)
        requires
            amount <= self.spec_current(),
        ensures
            r.spec_current() == self.spec_current() - amount,
            r.spec_previous() == self.spec_previous().push(self.spec_current()),
    {
        let mut this = self;
        let current = this.current;
        this.previous.push(current);
        this.current = current - amount;
        this
    }

    /// Subtracts another builder's final value.
    pub fn subtract_from_builder(self, builder: Builder) -> (r: Self)
        requires
            builder.spec_current() <= self.spec_current(),
        ensures
            r.spec_current() == self.spec_current() - builder.spec_current(),
            r.spec_previous() == self.spec_previous().push(self.spec_current()),
    {
        let amount = builder.build();
        self.subtract(amount)
    }

    /// Multiplies the current value by an amount.
    pub fn mulitply_by(self, amount: u64) -> (r: Self)
        requires
            self.spec_current() * amount <= u64::MAX,
        ensures
            r.spec_current() == self.spec_current() * amount,
            r.spec_previous() == self.spec_previous().push(self.spec_current()),
    {
        let mut this = self;
        let current = this.current;
        this.previous.push(current);
        this.current = current * amount;
        this
    }

    /// Multiplies by another builder's final value.
    pub fn mulitply_by_builder(self, builder: Builder) -> (r: Self)
        requires
            self.spec_current() * builder.spec_current() <= u64::MAX,
        ensures
            r.spec_current() == self.spec_current() * builder.spec_current(),
            r.spec_previous() == self.spec_previous().push(self.spec_current()),
    {
        let amount = builder.build();
        self.mulitply_by(amount)
    }

    /// Divides the current value by an amount, rounding down.
    pub fn divide_by(self, amount: u64) -> (r: Self)
        requires
            0 < amount,
        ensures
            r.spec_current() == self.spec_current() / amount,
            r.spec_previous() == self.spec_previous().push(self.spec_current()),
    {
        let mut this = self;
        let current = this.current;
        this.previous.push(current);
        this.current = current / amount;
        this
    }

    /// Divides by another builder's final value.
    pub fn divide_by_builder(self, builder: Builder) -> (r: Self)
        requires
            0 < builder.spec_current(),
        ensures
            r.spec_current() == self.spec_current() / builder.spec_current(),
            r.spec_previous() == self.spec_previous().push(self.spec_current()),
    {
        let amount = builder.build();
        self.divide_by(amount)
    }

    /// Replaces the current value with its remainder modulo an amount.
    pub fn modulo(self, amount: u64) -> (r: Self)
        requires
            0 < amount,
        ensures
            r.spec_current() == self.spec_current() % amount,
            r.spec_previous() == self.spec_previous().push(self.spec_current()),
    {
        let mut this = self;
        let current = this.current;
        this.previous.push(current);
        this.current = current % amount;
        this
    }

    /// Takes the remainder modulo another builder's final value.
    pub fn modulo_from_builder(self, builder: Builder) -> (r: Self)
        requires
            0 < builder.spec_current(),
        ensures
            r.spec_current() == self.spec_current() % builder.spec_current(),
            r.spec_previous() == self.spec_previous().push(self.spec_current()),
    {
        let amount = builder.build();
        self.modulo(amount)
    }

    /// Replaces the current value with a randomly drawn one.
    pub fn randomize(self) -> (r: Self)
        ensures
            r.spec_previous() == self.spec_previous().push(self.spec_current()),
    {
        let mut this = self;
        let current = this.current;
        this.previous.push(current);
        this.current = random_u64();
        this
    }

    /// Replaces the current value with one drawn from the given half-open
    /// range, which must not be empty.
    pub fn randomize_within(self, range: core::ops::Range<u64>) -> (r: Self)
        requires
            range.start < range.end,
        ensures
            range.start <= r.spec_current() < range.end,
            r.spec_previous() == self.spec_previous().push(self.spec_current()),
    {
        let mut this = self;
        let current = this.current;
        this.previous.push(current);
        this.current = random_u64_in(range.start, range.end);
        this
    }

    /// The value the chain has reached.
    pub fn build(&self) -> (r: u64)
        ensures
            r == self.spec_current(),
    {
        self.current
    }

    /// Every value of the chain: the history, oldest first, then the current
    /// value.
    pub fn all(&self) -> (r: Vec<u64>)
        ensures
            r@ == self.spec_previous().push(self.spec_current()),
    {
        let mut all = self.previous.clone();
        all.push(self.current);
        all
    }
}

impl PartialEq for Builder {
    /// Two builders are equal when their current values are; the histories do
    /// not take part.
    fn eq(&self, other: &Self) -> (r: bool) {
        self.current == other.current
    }
}

impl vstd::std_specs::cmp::PartialEqSpecImpl for Builder {
    open spec fn obeys_eq_spec() -> bool {
        true
    }

    open spec fn eq_spec(&self, other: &Self) -> bool {
        self.spec_current() == other.spec_current()
    }
}

} // verus!
