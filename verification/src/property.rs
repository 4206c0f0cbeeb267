//! The engine's properties as the bridge knows them: a closed list of names,
//! the kind of value each one takes, and the values themselves.

use crate::text::same_text;
use vstd::prelude::*;

verus! {

/// The kinds of value that the engine's property store distinguishes.
#[derive(Clone, Copy, Debug, PartialEq, Eq, Structural)]
pub enum ValueKind {
    Flag,
    Double,
    Text,
}

/// The properties that the bridge reads or writes.
#[derive(Clone, Copy, Debug, PartialEq, Eq, Structural)]
pub enum Property {
    /// Whether playback is halted; a flag.
    Pause,
    /// The playback speed multiplier; a double strictly above zero.
    Speed,
}

/// A playback speed multiplier, counted in tenths: `tenths / 10`.
#[derive(Clone, Copy, Debug, PartialEq, Eq, Structural)]
pub struct Speed {
    pub tenths: u32,
}

/// A value read from or written to a property, tagged with its kind.
#[derive(Clone, Debug, PartialEq, Eq)]
pub enum PropertyValue {
    Flag(bool),
    Double(Speed),
    Text(String),
}

/// Why a value cannot stand for a property.
#[derive(Clone, Copy, Debug, PartialEq, Eq, Structural)]
pub enum PropertyError {
    /// The value's kind is not one that the property takes.
    TypeMismatch,
    /// The kind is right, but the value is none that the property can hold.
    UnexpectedValue,
}

impl Speed {
    /// The multipliers that a property can hold are those above zero.
    pub open spec fn positive(self) -> bool {
        self.tenths > 0
    }

    /// The multiplier bound to a digit: the digit in tenths, and one for zero.
    pub open spec fn of_digit(digit: u8) -> Speed {
        Speed { tenths: if digit == 0 { 10 } else { digit as u32 } }
    }

    /// The multiplier bound to the digit key `digit`, for digits up to nine.
    pub fn for_digit(digit: u8) -> (speed: Option<Speed>)
        ensures
            speed == if digit <= 9 { Some(Self::of_digit(digit)) } else { None },
            speed is Some ==> speed->0.positive() && speed->0.tenths <= 10,
    {
        if digit > 9 {
            None
        } else if digit == 0 {
            Some(Speed { tenths: 10 })
        } else {
            Some(Speed { tenths: digit as u32 })
        }
    }
}

impl Property {
    /// The name under which the engine keeps the property.
    pub open spec fn name_text(self) -> Seq<char> {
        match self {
            Property::Pause => "pause"@,
            Property::Speed => "speed"@,
        }
    }

    /// The kind of value that the engine declares for the property.
    pub open spec fn kind_of(self) -> ValueKind {
        match self {
            Property::Pause => ValueKind::Flag,
            Property::Speed => ValueKind::Double,
        }
    }

    /// What `check` answers for a value offered to the property.
    pub open spec fn verdict(self, value: PropertyValue) -> Result<(), PropertyError> {
        match (self, value) {
            (Property::Pause, PropertyValue::Flag(_)) => Ok(()),
            (Property::Pause, PropertyValue::Text(text)) => if flag_of_text(text@) is Some {
                Ok(())
            } else {
                Err(PropertyError::UnexpectedValue)
            },
            (Property::Pause, PropertyValue::Double(_)) => Err(PropertyError::TypeMismatch),
            (Property::Speed, PropertyValue::Double(speed)) => if speed.positive() {
                Ok(())
            } else {
                Err(PropertyError::UnexpectedValue)
            },
            (Property::Speed, _) => Err(PropertyError::TypeMismatch),
        }
    }

    pub fn name(self) -> (name: &'static str)
        ensures
            name@ == self.name_text(),
    {
        match self {
            Property::Pause => "pause",
            Property::Speed => "speed",
        }
    }

    pub fn kind(self) -> (kind: ValueKind)
        ensures
            kind == self.kind_of(),
    {
        match self {
            Property::Pause => ValueKind::Flag,
            Property::Speed => ValueKind::Double,
        }
    }

    /// Decides, before anything is handed to the engine, whether `value` can
    /// stand for the property: a flag or one of its two texts for the pause
    /// flag, a multiplier above zero for the speed.
    pub fn check(self, value: &PropertyValue) -> (verdict: Result<(), PropertyError>)
        ensures
            verdict == self.verdict(*value),
    {
        match self {
            Property::Pause => match read_flag(value) {
                Ok(_) => Ok(()),
                Err(e) => Err(e),
            },
            Property::Speed => match value {
                PropertyValue::Double(speed) => if speed.tenths > 0 {
                    Ok(())
                } else {
                    Err(PropertyError::UnexpectedValue)
                },
                _ => Err(PropertyError::TypeMismatch),
            },
        }
    }
}

impl PropertyValue {
    pub open spec fn kind_of(self) -> ValueKind {
        match self {
            PropertyValue::Flag(_) => ValueKind::Flag,
            PropertyValue::Double(_) => ValueKind::Double,
            PropertyValue::Text(_) => ValueKind::Text,
        }
    }

    /// The tag of the value.
    pub fn kind(&self) -> (kind: ValueKind)
        ensures
            kind == self.kind_of(),
    {
        match self {
            PropertyValue::Flag(_) => ValueKind::Flag,
            PropertyValue::Double(_) => ValueKind::Double,
            PropertyValue::Text(_) => ValueKind::Text,
        }
    }
}

/// The text by which the engine writes a flag.
pub open spec fn text_of_flag(flag: bool) -> Seq<char> {
    if flag { "yes"@ } else { "no"@ }
}

/// The flag that a text stands for, where it is one of the two that the
/// engine writes.
pub open spec fn flag_of_text(text: Seq<char>) -> Option<bool> {
    if text == "yes"@ {
        Some(true)
    } else if text == "no"@ {
        Some(false)
    } else {
        None
    }
}

/// The flag that a value read from a flag property holds.
pub open spec fn flag_of(value: PropertyValue) -> Result<bool, PropertyError> {
    match value {
        PropertyValue::Flag(flag) => Ok(flag),
        PropertyValue::Text(text) => match flag_of_text(text@) {
            Some(flag) => Ok(flag),
            None => Err(PropertyError::UnexpectedValue),
        },
        PropertyValue::Double(_) => Err(PropertyError::TypeMismatch),
    }
}

pub fn flag_text(flag: bool) -> (text: &'static str)
    ensures
        text@ == text_of_flag(flag),
{
    if flag { "yes" } else { "no" }
}

pub fn parse_flag(text: &str) -> (flag: Option<bool>)
    ensures
        flag == flag_of_text(text@),
{
    if same_text(text, "yes") {
        Some(true)
    } else if same_text(text, "no") {
        Some(false)
    } else {
        None
    }
}

/// Reads a flag out of a value that the engine returned for a flag property:
/// a flag as it is, a text through `parse_flag`. A text that is neither of
/// the engine's two is an unexpected value; a double is a mismatch.
pub fn read_flag(value: &PropertyValue) -> (flag: Result<bool, PropertyError>)
    ensures
        flag == flag_of(*value),
{
    match value {
        PropertyValue::Flag(flag) => Ok(*flag),
        PropertyValue::Text(text) => match parse_flag(text.as_str()) {
            Some(flag) => Ok(flag),
            None => Err(PropertyError::UnexpectedValue),
        },
        PropertyValue::Double(_) => Err(PropertyError::TypeMismatch),
    }
}

/// The two texts of a flag are told apart, and each is read back as the flag
/// that it was written for.
pub proof fn lemma_flag_text_round_trip(flag: bool)
    ensures
        flag_of_text(text_of_flag(flag)) == Some(flag),
        text_of_flag(true) != text_of_flag(false),
{
    reveal_strlit("yes");
    reveal_strlit("no");
    assert("yes"@.len() != "no"@.len());
}

} // verus!
