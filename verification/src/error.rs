//! The typed failures of the bridge.

use vstd::prelude::*;

verus! {

/// Why a native or abstraction-layer call failed.
#[derive(Clone, Copy, Debug, PartialEq, Eq, Structural)]
pub enum FailureCause {
    /// The native API returned this result code.
    NativeCode(i32),
    /// The abstraction layer refused, and gave no code.
    AbstractionLayer,
}

/// Why no physical device could be selected.
#[derive(Clone, Copy, Debug, PartialEq, Eq, Structural)]
pub enum EnumerationFailure {
    /// The native enumeration call failed with this result code.
    Native { code: i32 },
    /// The adapter index does not name one of the enumerated devices.
    OutOfRange { index: usize, available: usize },
}

/// A failure of the bridge. It is handed to the immediate caller and never
/// retried.
#[derive(Clone, Copy, Debug, PartialEq, Eq, Structural)]
pub enum BridgeError {
    /// The abstraction layer could not list the extensions it needs.
    ExtensionQueryError,
    /// A native instance could not be created or wrapped.
    InstanceCreationError { cause: FailureCause },
    /// No physical device could be selected.
    DeviceEnumerationError { failure: EnumerationFailure },
    /// A logical device could not be created or wrapped.
    DeviceCreationError { cause: FailureCause },
    /// The physical device cannot be used by the abstraction layer.
    AdapterExposureError,
    /// No queue family of the physical device supports graphics.
    QueueFamilySelectionError,
    /// A native image could not be created.
    ImageCreationError { code: i32 },
}

impl BridgeError {
    /// The native result code that the failure preserves, if it has one.
    pub open spec fn native_code_spec(self) -> Option<i32> {
        match self {
            BridgeError::InstanceCreationError { cause: FailureCause::NativeCode(code) } => Some(
                code,
            ),
            BridgeError::DeviceEnumerationError {
                failure: EnumerationFailure::Native { code },
            } => Some(code),
            BridgeError::DeviceCreationError { cause: FailureCause::NativeCode(code) } => Some(
                code,
            ),
            BridgeError::ImageCreationError { code } => Some(code),
            _ => None,
        }
    }

    /// The native result code that the failure preserves, if it has one.
    pub fn native_code(&self) -> (r: Option<i32>)
        ensures
            r == self.native_code_spec(),
    {
        match self {
            BridgeError::InstanceCreationError { cause: FailureCause::NativeCode(code) } => Some(
                *code,
            ),
            BridgeError::DeviceEnumerationError {
                failure: EnumerationFailure::Native { code },
            } => Some(*code),
            BridgeError::DeviceCreationError { cause: FailureCause::NativeCode(code) } => Some(
                *code,
            ),
            BridgeError::ImageCreationError { code } => Some(*code),
            _ => None,
        }
    }

    /// The text that names the kind of failure.
    pub open spec fn kind_spec(self) -> Seq<char> {
        match self {
            BridgeError::ExtensionQueryError => "required extensions could not be queried"@,
            BridgeError::InstanceCreationError { .. } => "instance creation failed"@,
            BridgeError::DeviceEnumerationError {
                failure: EnumerationFailure::Native { .. },
            } => "physical devices could not be enumerated"@,
            BridgeError::DeviceEnumerationError {
                failure: EnumerationFailure::OutOfRange { .. },
            } => "adapter index out of range"@,
            BridgeError::DeviceCreationError { .. } => "device creation failed"@,
            BridgeError::AdapterExposureError => "physical device is not usable as an adapter"@,
            BridgeError::QueueFamilySelectionError => "no queue family supports graphics"@,
            BridgeError::ImageCreationError { .. } => "image creation failed"@,
        }
    }

    /// What the message says after the kind of failure: the native result
    /// code where there is one, the index and the number of devices where
    /// the index was out of range.
    pub open spec fn detail_spec(self) -> Seq<char> {
        match self {
            BridgeError::DeviceEnumerationError {
                failure: EnumerationFailure::OutOfRange { index, available },
            } => ": index "@ + decimal_spec(index as nat) + ", devices "@ + decimal_spec(
                available as nat,
            ),
            _ => match self.native_code_spec() {
                Some(code) => ": native result code "@ + signed_decimal_spec(code as int),
                None => Seq::empty(),
            },
        }
    }

    /// The text of the message.
    pub open spec fn message_spec(self) -> Seq<char> {
        self.kind_spec() + self.detail_spec()
    }

    fn kind(&self) -> (r: String)
        ensures
            r@ == self.kind_spec(),
    {
        match self {
            BridgeError::ExtensionQueryError => {
                "required extensions could not be queried".to_owned()
            },
            BridgeError::InstanceCreationError { .. } => "instance creation failed".to_owned(),
            BridgeError::DeviceEnumerationError {
                failure: EnumerationFailure::Native { .. },
            } => "physical devices could not be enumerated".to_owned(),
            BridgeError::DeviceEnumerationError {
                failure: EnumerationFailure::OutOfRange { .. },
            } => "adapter index out of range".to_owned(),
            BridgeError::DeviceCreationError { .. } => "device creation failed".to_owned(),
            BridgeError::AdapterExposureError => {
                "physical device is not usable as an adapter".to_owned()
            },
            BridgeError::QueueFamilySelectionError => {
                "no queue family supports graphics".to_owned()
            },
            BridgeError::ImageCreationError { .. } => "image creation failed".to_owned(),
        }
    }

    /// A human-readable message for the failure: its kind, and after it the
    /// native result code, or the index that was out of range.
    pub fn message(&self) -> (r: String)
        ensures
            r@ == self.message_spec(),
    {
        let mut text = self.kind();
        match self {
            BridgeError::DeviceEnumerationError {
                failure: EnumerationFailure::OutOfRange { index, available },
            } => {
                text.append(": index ");
                let shown = decimal(*index as u64);
                text.append(shown.as_str());
                text.append(", devices ");
                let shown = decimal(*available as u64);
                text.append(shown.as_str());
                assert(text@ =~= self.message_spec());
            },
            _ => {
                match self.native_code() {
                    Some(code) => {
                        text.append(": native result code ");
                        let shown = signed_decimal(code);
                        text.append(shown.as_str());
                        assert(text@ =~= self.message_spec());
                    },
                    None => {
                        assert(text@ =~= self.message_spec());
                    },
                }
            },
        }
        text
    }
}

/// The character of a decimal digit.
pub open spec fn digit_spec(digit: nat) -> char {
    if digit == 0 {
        '0'
    } else if digit == 1 {
        '1'
    } else if digit == 2 {
        '2'
    } else if digit == 3 {
        '3'
    } else if digit == 4 {
        '4'
    } else if digit == 5 {
        '5'
    } else if digit == 6 {
        '6'
    } else if digit == 7 {
        '7'
    } else if digit == 8 {
        '8'
    } else {
        '9'
    }
}

/// The decimal digits of a natural number, without leading zeros.
pub open spec fn decimal_spec(n: nat) -> Seq<char>
    decreases n,
{
    if n < 10 {
        seq![digit_spec(n)]
    } else {
        decimal_spec(n / 10).push(digit_spec(n % 10))
    }
}

/// The decimal digits of an integer, after a minus sign if it is negative.
pub open spec fn signed_decimal_spec(n: int) -> Seq<char> {
    if n < 0 {
        seq!['-'] + decimal_spec((-n) as nat)
    } else {
        decimal_spec(n as nat)
    }
}

fn digit(d: u64) -> (r: &'static str)
    requires
        d < 10,
    ensures
        r@ == seq![digit_spec(d as nat)],
{
    proof {
        reveal_strlit("0");
        reveal_strlit("1");
        reveal_strlit("2");
        reveal_strlit("3");
        reveal_strlit("4");
        reveal_strlit("5");
        reveal_strlit("6");
        reveal_strlit("7");
        reveal_strlit("8");
        reveal_strlit("9");
    }
    let text = if d == 0 {
        "0"
    } else if d == 1 {
        "1"
    } else if d == 2 {
        "2"
    } else if d == 3 {
        "3"
    } else if d == 4 {
        "4"
    } else if d == 5 {
        "5"
    } else if d == 6 {
        "6"
    } else if d == 7 {
        "7"
    } else if d == 8 {
        "8"
    } else {
        "9"
    };
    assert(text@ =~= seq![digit_spec(d as nat)]);
    text
}

/// Writes a number in decimal digits.
pub fn decimal(n: u64) -> (r: String)
    ensures
        r@ == decimal_spec(n as nat),
    decreases n,
{
    if n < 10 {
        digit(n).to_owned()
    } else {
        let mut text = decimal(n / 10);
        text.append(digit(n % 10));
        assert(text@ =~= decimal_spec(n as nat));
        text
    }
}

/// Writes an integer in decimal digits, with a minus sign if it is negative.
pub fn signed_decimal(n: i32) -> (r: String)
    ensures
        r@ == signed_decimal_spec(n as int),
{
    if n < 0 {
        proof {
            reveal_strlit("-");
        }
        let magnitude: u64 = (-(n as i64)) as u64;
        let mut text = "-".to_owned();
        let digits = decimal(magnitude);
        text.append(digits.as_str());
        assert(text@ =~= signed_decimal_spec(n as int));
        text
    } else {
        decimal(n as u64)
    }
}

} // verus!
