//! Example payload types: a phone number written as eleven ASCII digits.
//!
//! [`PhoneNumber`] is checked without any context; [`StoredPhoneNumber`]
//! additionally requires the number to exist in a [`Directory`] supplied
//! as the validation context.

use vstd::prelude::*;
use crate::Validate;

verus! {

/// True when `b` is the ASCII code of a decimal digit ('0' is 48, '9' is 57).
pub open spec fn is_ascii_digit(b: u8) -> bool {
    48 <= b && b <= 57
}

/// True when every byte of `s` is the ASCII code of a decimal digit.
pub open spec fn all_ascii_digits(s: Seq<u8>) -> bool {
    forall|i: int| 0 <= i < s.len() ==> is_ascii_digit(s[i])
}

/// Executable check that every byte of `v` is an ASCII decimal digit.
pub fn check_all_digits(v: &Vec<u8>) -> (r: bool)
    ensures
        r == all_ascii_digits(v@),
{
    let mut i: usize = 0;
    while i < v.len()
        invariant
            i <= v@.len(),
            forall|j: int| 0 <= j < i ==> is_ascii_digit(v@[j]),
        decreases v@.len() - i,
    {
        let b = v[i];
        if b < 48 || b > 57 {
            return false;
        }
        i = i + 1;
    }
    true
}

/// Executable byte-for-byte equality of two byte strings.
pub fn bytes_eq(a: &Vec<u8>, b: &Vec<u8>) -> (r: bool)
    ensures
        r == (a@ == b@),
{
    if a.len() != b.len() {
        return false;
    }
    let mut i: usize = 0;
    while i < a.len()
        invariant
            a@.len() == b@.len(),
            i <= a@.len(),
            forall|j: int| 0 <= j < i ==> a@[j] == b@[j],
        decreases a@.len() - i,
    {
        if a[i] != b[i] {
            return false;
        }
        i = i + 1;
    }
    proof {
        assert(a@ =~= b@);
    }
    true
}

/// Why a [`PhoneNumber`] failed validation.
#[derive(Debug, Clone, Copy, PartialEq, Eq)]
pub enum InvalidPhoneNumber {
    /// The text is not exactly eleven bytes long. Checked first.
    WrongLength,
    /// Some byte is not an ASCII decimal digit. Checked second.
    NonDigit,
}

/// A phone number: text that is valid when it consists of exactly eleven
/// ASCII decimal digits. Validation is self-contained, so the context is
/// the unit value.
#[derive(Debug, Clone, PartialEq, Eq, PartialOrd, Ord, Hash)]
pub struct PhoneNumber {
    /// The bytes of the written number.
    pub digits: Vec<u8>,
}

impl Validate for PhoneNumber {
    type Context = ();

    type Error = InvalidPhoneNumber;

    open spec fn valid_spec(&self, ctx: ()) -> bool {
        self.digits@.len() == 11 && all_ascii_digits(self.digits@)
    }

    open spec fn error_spec(&self, ctx: ()) -> InvalidPhoneNumber {
        if self.digits@.len() != 11 {
            InvalidPhoneNumber::WrongLength
        } else {
            InvalidPhoneNumber::NonDigit
        }
    }

    fn is_valid(&self, ctx: &()) -> (r: Result<(), InvalidPhoneNumber>) {
        if self.digits.len() != 11 {
            return Err(InvalidPhoneNumber::WrongLength);
        }
        if !check_all_digits(&self.digits) {
            return Err(InvalidPhoneNumber::NonDigit);
        }
        Ok(())
    }
}

/// The context for [`StoredPhoneNumber`]: the numbers that are known to
/// exist. Borrowed by the predicate for the duration of the check only.
#[derive(Debug, Clone, PartialEq, Eq)]
pub struct Directory {
    /// The known numbers, each as its written bytes.
    pub entries: Vec<Vec<u8>>,
}

impl Directory {
    /// True when `s` is one of the known numbers.
    pub open spec fn contains_spec(&self, s: Seq<u8>) -> bool {
        exists|i: int| 0 <= i < self.entries@.len() && self.entries@[i]@ == s
    }

    /// Executable lookup of `s` among the known numbers.
    pub fn contains(&self, s: &Vec<u8>) -> (r: bool)
        ensures
            r == self.contains_spec(s@),
    {
        let mut i: usize = 0;
        while i < self.entries.len()
            invariant
                i <= self.entries@.len(),
                forall|j: int| 0 <= j < i ==> self.entries@[j]@ != s@,
            decreases self.entries@.len() - i,
        {
            if bytes_eq(&self.entries[i], s) {
                return true;
            }
            i = i + 1;
        }
        false
    }
}

/// Why a [`StoredPhoneNumber`] failed validation.
#[derive(Debug, Clone, Copy, PartialEq, Eq)]
pub enum InvalidStoredPhoneNumber {
    /// The text is not exactly eleven bytes long. Checked first.
    WrongLength,
    /// Some byte is not an ASCII decimal digit. Checked second.
    NonDigit,
    /// The number is well-formed but absent from the directory. Checked
    /// last.
    NotFound,
}

/// A phone number that must also exist in a [`Directory`]: valid when it
/// consists of exactly eleven ASCII decimal digits and the directory
/// supplied as context contains it.
#[derive(Debug, Clone, PartialEq, Eq, PartialOrd, Ord, Hash)]
pub struct StoredPhoneNumber {
    /// The bytes of the written number.
    pub digits: Vec<u8>,
}

impl Validate for StoredPhoneNumber {
    type Context = Directory;

    type Error = InvalidStoredPhoneNumber;

    open spec fn valid_spec(&self, ctx: Directory) -> bool {
        self.digits@.len() == 11 && all_ascii_digits(self.digits@)
            && ctx.contains_spec(self.digits@)
    }

    open spec fn error_spec(&self, ctx: Directory) -> InvalidStoredPhoneNumber {
        if self.digits@.len() != 11 {
            InvalidStoredPhoneNumber::WrongLength
        } else if !all_ascii_digits(self.digits@) {
            InvalidStoredPhoneNumber::NonDigit
        } else {
            InvalidStoredPhoneNumber::NotFound
        }
    }

    fn is_valid(&self, ctx: &Directory) -> (r: Result<(), InvalidStoredPhoneNumber>) {
        if self.digits.len() != 11 {
            return Err(InvalidStoredPhoneNumber::WrongLength);
        }
        if !check_all_digits(&self.digits) {
            return Err(InvalidStoredPhoneNumber::NonDigit);
        }
        if !ctx.contains(&self.digits) {
            return Err(InvalidStoredPhoneNumber::NotFound);
        }
        Ok(())
    }
}

} // verus!
