//! Win32 error codes and the text that describes them.
use vstd::prelude::*;

use crate::wide::{decode_message, message_text, push_char};

verus! {

/// Bit 29 of an error code: set on codes that an application defines, clear
/// on the system's own codes.
pub const APPLICATION_ERROR_BIT: u32 = 0x2000_0000;

/// `FORMAT_MESSAGE_ALLOCATE_BUFFER`: the system allocates the message buffer.
pub const FORMAT_MESSAGE_ALLOCATE_BUFFER: u32 = 0x0000_0100;

/// `FORMAT_MESSAGE_FROM_SYSTEM`: look the code up in the system's table.
pub const FORMAT_MESSAGE_FROM_SYSTEM: u32 = 0x0000_1000;

/// `FORMAT_MESSAGE_IGNORE_INSERTS`: leave `%1`-style inserts as they are.
pub const FORMAT_MESSAGE_IGNORE_INSERTS: u32 = 0x0000_0200;

/// The flags with which the text of a system error code is fetched.
pub const SYSTEM_MESSAGE_FLAGS: u32 = FORMAT_MESSAGE_ALLOCATE_BUFFER | FORMAT_MESSAGE_FROM_SYSTEM
    | FORMAT_MESSAGE_IGNORE_INSERTS;

/// A Win32 error code, as `GetLastError` reports it.
#[derive(Debug, Clone, Copy, PartialEq, Eq, Structural)]
pub struct Win32Error(pub u32);

/// The text of an error could not be produced: the system has no message
/// for the code.
#[derive(Debug, Clone, Copy, PartialEq, Eq, Structural)]
pub struct FormatError;

/// The character of a decimal digit `d < 10`.
pub open spec fn decimal_digit(d: nat) -> char {
    ((d + 48) as u8) as char
}

/// The decimal numeral of `n`, without leading zeros.
pub open spec fn decimal(n: nat) -> Seq<char>
    decreases n,
{
    if n < 10 {
        seq![decimal_digit(n)]
    } else {
        decimal(n / 10).push(decimal_digit(n % 10))
    }
}

/// The text of an application-defined error code.
pub open spec fn application_error_text(code: u32) -> Seq<char> {
    "Win32ApplicationError("@ + decimal(code as nat) + ")"@
}

/// Whether `code` is application-defined.
pub open spec fn is_application_code(code: u32) -> bool {
    code & APPLICATION_ERROR_BIT != 0
}

/// The text of an error, given the units of the system message for its code
/// (`None` where the system returned none): the application text for an
/// application-defined code, else the message as one line, and a failure
/// where there is no message or it is empty.
pub open spec fn error_text(code: u32, system_message: Option<Seq<u16>>) -> Result<Seq<char>, FormatError> {
    if is_application_code(code) {
        Ok(application_error_text(code))
    } else {
        match system_message {
            Some(units) => if units.len() == 0 {
                Err(FormatError)
            } else {
                Ok(message_text(units))
            },
            None => Err(FormatError),
        }
    }
}

/// The units that an optional slice holds.
pub open spec fn units_view(units: Option<&[u16]>) -> Option<Seq<u16>> {
    match units {
        Some(u) => Some(u@),
        None => None,
    }
}

/// Appends the decimal numeral of `n`.
fn push_decimal(out: &mut String, n: u32)
    ensures
        final(out)@ == old(out)@ + decimal(n as nat),
    decreases n,
{
    if n >= 10 {
        push_decimal(out, n / 10);
    }
    let d: u8 = (n % 10) as u8;
    push_char(out, (d + 48) as char);
    proof {
        if n >= 10 {
            assert(decimal(n as nat) == decimal((n / 10) as nat).push(decimal_digit((n % 10) as nat)));
        }
    }
    assert(out@ =~= old(out)@ + decimal(n as nat));
}

impl Win32Error {
    /// Whether the code is application-defined (bit 29 set).
    pub fn is_application_error(&self) -> (b: bool)
        ensures
            b == is_application_code(self.0),
            b == (self.0 & 0x2000_0000 != 0),
    {
        self.0 & APPLICATION_ERROR_BIT != 0
    }

    /// `Win32ApplicationError(<code>)`, the text of an application-defined
    /// code.
    pub fn application_error_text(&self) -> (text: String)
        ensures
            text@ == application_error_text(self.0),
    {
        let mut text = String::from_str("Win32ApplicationError(");
        push_decimal(&mut text, self.0);
        text.append(")");
        text
    }

    /// The text that describes the error.  `system_message` holds the units
    /// that `FormatMessageW` wrote for the code, without the terminator, or
    /// `None` where it wrote none; it is not read for an application-defined
    /// code.
    pub fn display_text(&self, system_message: Option<&[u16]>) -> (text: Result<String, FormatError>)
        ensures
            text matches Ok(t) ==> error_text(self.0, units_view(system_message)) == Ok::<
                Seq<char>,
                FormatError,
            >(t@),
            text is Err <==> error_text(self.0, units_view(system_message)) is Err,
            self.0 & 0x2000_0000 != 0 ==> (text matches Ok(t) && t@ == application_error_text(self.0)),
            self.0 & 0x2000_0000 == 0 ==> (text is Err <==> (system_message is None || (system_message
                matches Some(u) && u@.len() == 0))),
            self.0 & 0x2000_0000 == 0 ==> (system_message matches Some(u) ==> (text matches Ok(t) ==> t@
                == message_text(u@))),
    {
        if self.is_application_error() {
            Ok(self.application_error_text())
        } else {
            match system_message {
                Some(units) => {
                    if units.len() == 0 {
                        Err(FormatError)
                    } else {
                        Ok(decode_message(units))
                    }
                },
                None => Err(FormatError),
            }
        }
    }
}


/// A code is application-defined exactly when bit 29 is set: when the code,
/// divided by 2^29, leaves an odd quotient.  Every code with bit 29 clear is
/// one of the system's.
pub proof fn lemma_application_bit(code: u32)
    ensures
        is_application_code(code) <==> (code & 0x2000_0000 != 0),
        is_application_code(code) <==> (code / 0x2000_0000) % 2 == 1,
{
    assert((code & 0x2000_0000 != 0) <==> ((code / 0x2000_0000) % 2 == 1)) by (bit_vector);
}

/// The number that a string of decimal digits denotes.
pub open spec fn decimal_value(s: Seq<char>) -> int
    decreases s.len(),
{
    if s.len() == 0 {
        0
    } else {
        decimal_value(s.drop_last()) * 10 + ((s.last() as u32) - 48)
    }
}

/// The decimal numeral of `n` consists of digits only, has no leading zero
/// and denotes `n`.
pub proof fn lemma_decimal_denotes(n: nat)
    ensures
        decimal(n).len() >= 1,
        forall|i: int| 0 <= i < decimal(n).len() ==> 48 <= (#[trigger] decimal(n)[i] as u32) <= 57,
        n > 0 ==> decimal(n)[0] as u32 != 48,
        decimal_value(decimal(n)) == n,
    decreases n,
{
    if n < 10 {
        assert(decimal(n) == seq![decimal_digit(n)]);
        assert(decimal(n).drop_last() =~= Seq::<char>::empty());
        assert(decimal_digit(n) as u32 == n + 48);
        assert(decimal(n).last() == decimal_digit(n));
        assert(decimal_value(Seq::<char>::empty()) == 0);
        assert(decimal_value(decimal(n)) == decimal_value(decimal(n).drop_last()) * 10 + ((decimal(
            n,
        ).last() as u32) - 48));
    } else {
        lemma_decimal_denotes(n / 10);
        let d = decimal(n);
        let p = decimal(n / 10);
        assert(d == p.push(decimal_digit(n % 10)));
        assert(d.drop_last() =~= p);
        assert(decimal_digit(n % 10) as u32 == n % 10 + 48);
        assert forall|i: int| 0 <= i < d.len() implies 48 <= (#[trigger] d[i] as u32) <= 57 by {
            if i < p.len() {
                assert(d[i] == p[i]);
            }
        }
        assert(d[0] == p[0]);
        assert(n == (n / 10) * 10 + n % 10);
        assert(d.last() == decimal_digit(n % 10));
        assert(decimal_value(d) == decimal_value(p) * 10 + ((d.last() as u32) - 48));
    }
}

} // verus!
