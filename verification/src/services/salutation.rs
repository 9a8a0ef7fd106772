//! A greeter and calculator with a fixed way to greet.

use vstd::prelude::*;

use crate::services::greeter::GreeterServiceSync;
use crate::services::math::MathServiceSync;
use crate::text::decimal_text;

verus! {

/// Greets with a fixed text around the name.
pub struct Salutation {
    /// What stands before the name.
    pub opening: String,
    /// What stands after the name.
    pub closing: String,
}

impl Salutation {
    /// A greeter with the given text around the name.
    pub fn new(opening: &str, closing: &str) -> (greeter: Self)
        ensures
            greeter.opening@ == opening@,
            greeter.closing@ == closing@,
    {
        Salutation { opening: opening.to_owned(), closing: closing.to_owned() }
    }

    /// The casual greeter of server `id`.
    pub fn casual(id: u8) -> (greeter: Self)
        ensures
            greeter.opening@ == "Yo, "@,
            greeter.closing@ == "! (server "@ + crate::text::decimal(id as nat) + ")"@,
    {
        let mut closing = "! (server ".to_owned();
        closing.append(decimal_text(id as u64).as_str());
        closing.append(")");
        Salutation { opening: "Yo, ".to_owned(), closing }
    }

    /// The formal greeter.
    pub fn formal() -> (greeter: Self)
        ensures
            greeter.opening@ == "Good day, "@,
            greeter.closing@ == ". How do you do?"@,
    {
        Self::new("Good day, ", ". How do you do?")
    }
}

impl GreeterServiceSync for Salutation {
    open spec fn greets(&self, name: String, greeting: String) -> bool {
        greeting@ == self.opening@ + name@ + self.closing@
    }

    open spec fn reports(&self, healthy: bool) -> bool {
        healthy
    }

    fn greet(&self, name: String) -> (greeting: String) {
        let mut greeting = self.opening.clone();
        greeting.append(name.as_str());
        greeting.append(self.closing.as_str());
        greeting
    }

    fn health(&self) -> (healthy: bool) {
        true
    }

    fn reset(&self) {
    }
}

impl MathServiceSync for Salutation {
    open spec fn adds(&self, a: i32, b: i32, sum: i64) -> bool {
        sum == a + b
    }

    open spec fn multiplies(&self, a: i32, b: i32, product: i64) -> bool {
        product == a * b
    }

    fn add(&self, a: i32, b: i32) -> (sum: i64) {
        a as i64 + b as i64
    }

    fn multiply(&self, a: i32, b: i32) -> (product: i64) {
        assert(-0x4000_0000_0000_0000 <= a * b <= 0x4000_0000_0000_0000) by (nonlinear_arith)
            requires
                -0x8000_0000 <= a <= 0x7fff_ffff,
                -0x8000_0000 <= b <= 0x7fff_ffff,
        ;
        a as i64 * b as i64
    }
}

} // verus!
