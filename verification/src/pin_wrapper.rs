use vstd::prelude::*;

verus! {

/// The pin capability: the instantaneous, undebounced logic level of an input.
///
/// A reading promises nothing about the next one, so `is_high` has no
/// postcondition here. What an implementation states of its own readings,
/// the button's contracts pass on.
pub trait PinWrapper {
    /// Is the input at logic one?
    fn is_high(&mut self) -> bool;

    /// Is the input at logic zero? Unless an implementation says otherwise,
    /// this is one reading of `is_high`, negated.
    fn is_low(&mut self) -> (low: bool)
        default_ensures
            exists|pin: &mut Self, high: bool|
                {
                    &&& &*pin == &*old(self)
                    &&& &*final(pin) == &*final(self)
                    &&& #[trigger] call_ensures(Self::is_high, (pin,), high)
                    &&& low == !high
                },
    {
        !self.is_high()
    }
}

/// The level that a fallible pin read stands for: a failed read counts as low.
pub fn level_or_low<E>(reading: Result<bool, E>) -> (high: bool)
    ensures
        high == (reading matches Ok(level) && level),
{
    match reading {
        Ok(level) => level,
        Err(_) => false,
    }
}

} // verus!
