use vstd::prelude::*;

use crate::color::{Color, EnvironmentColor, StateKey};

verus! {

/// A state that follows one colour of the environment.
#[derive(Clone, Debug)]
pub struct EnvironmentColorState {
    key: StateKey,
    value: Color,
}

impl EnvironmentColorState {
    pub closed spec fn spec_key(&self) -> StateKey {
        self.key
    }

    pub closed spec fn spec_value(&self) -> Color {
        self.value
    }

    /// A state that follows the environment colour `key`; until the
    /// environment is read it holds opaque black.
    pub fn new(key: EnvironmentColor) -> (s: Self)
        ensures
            s.spec_key() == StateKey::Color(key),
            s.spec_value() == Color::spec_black(),
    {
        EnvironmentColorState { key: StateKey::Color(key), value: Color::black() }
    }

    /// The key of the environment colour that the state follows.
    pub fn key(&self) -> (k: StateKey)
        ensures
            k == self.spec_key(),
    {
        self.key
    }

    /// Takes over the colour that the environment holds under the state's key,
    /// `found`, where it holds one; otherwise the value stays.
    pub fn capture_state(&mut self, found: Option<Color>)
        ensures
            final(self).spec_key() == old(self).spec_key(),
            final(self).spec_value() == (match found {
                Some(color) => color,
                None => old(self).spec_value(),
            }),
    {
        if let Some(color) = found {
            self.value = color;
        }
    }

    /// Gives nothing back to the environment.
    pub fn release_state(&mut self)
        ensures
            *final(self) == *old(self),
    {
    }

    pub fn value(&self) -> (c: &Color)
        ensures
            *c == self.spec_value(),
    {
        &self.value
    }

    /// The colour, to change in place.
    pub fn value_mut(&mut self) -> (c: &mut Color)
        ensures
            *c == old(self).spec_value(),
            final(self).spec_key() == old(self).spec_key(),
            final(self).spec_value() == *final(c),
    {
        &mut self.value
    }

    pub fn set_value(&mut self, value: Color)
        ensures
            final(self).spec_key() == old(self).spec_key(),
            final(self).spec_value() == value,
    {
        self.value = value;
    }
}

} // verus!
