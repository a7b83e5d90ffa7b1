//! Request shapes for registering and logging in, with the checks that the
//! fields of a registration must pass.

use vstd::prelude::*;
use vstd::utf8::encode_utf8;

use crate::errors::FieldFormatError;

verus! {

/// An ASCII letter.
pub open spec fn is_letter(byte: u8) -> bool {
    (0x41 <= byte <= 0x5a) || (0x61 <= byte <= 0x7a)
}

/// An ASCII letter or digit.
pub open spec fn is_alphanumeric(byte: u8) -> bool {
    is_letter(byte) || (0x30 <= byte <= 0x39)
}

/// A byte that may stand before the `@`: a letter, a digit, or one of
/// `.`, `_`, `%`, `+`, `-`.
pub open spec fn is_local_byte(byte: u8) -> bool {
    is_alphanumeric(byte) || byte == 0x2e || byte == 0x5f || byte == 0x25 || byte == 0x2b || byte
        == 0x2d
}

/// A byte that may stand in the domain: a letter, a digit, `.` or `-`.
pub open spec fn is_domain_byte(byte: u8) -> bool {
    is_alphanumeric(byte) || byte == 0x2e || byte == 0x2d
}

/// The text is an address cut at `at` and `dot`: a local part that is not
/// empty, an `@`, a domain that is not empty, a `.`, and a top-level domain
/// of at least two letters.
pub open spec fn splits_as_email(text: Seq<u8>, at: int, dot: int) -> bool {
    &&& 0 < at
    &&& at + 1 < dot
    &&& dot + 2 < text.len()
    &&& text[at] == 0x40
    &&& text[dot] == 0x2e
    &&& forall|i: int| 0 <= i < at ==> is_local_byte(#[trigger] text[i])
    &&& forall|i: int| at < i < dot ==> is_domain_byte(#[trigger] text[i])
    &&& forall|i: int| dot < i < text.len() ==> is_letter(#[trigger] text[i])
}

/// The text is a well-formed email address.
pub open spec fn is_email(text: Seq<u8>) -> bool {
    exists|at: int, dot: int| splits_as_email(text, at, dot)
}

/// A user name takes 2 to 32 bytes.
pub open spec fn is_username(text: Seq<u8>) -> bool {
    2 <= text.len() <= 32
}

/// A password takes 1 to 72 bytes.
pub open spec fn is_password(text: Seq<u8>) -> bool {
    1 <= text.len() <= 72
}

fn letter(byte: u8) -> (yes: bool)
    ensures
        yes == is_letter(byte),
{
    (0x41 <= byte && byte <= 0x5a) || (0x61 <= byte && byte <= 0x7a)
}

fn alphanumeric(byte: u8) -> (yes: bool)
    ensures
        yes == is_alphanumeric(byte),
{
    letter(byte) || (0x30 <= byte && byte <= 0x39)
}

fn local_byte(byte: u8) -> (yes: bool)
    ensures
        yes == is_local_byte(byte),
{
    alphanumeric(byte) || byte == 0x2e || byte == 0x5f || byte == 0x25 || byte == 0x2b || byte
        == 0x2d
}

fn domain_byte(byte: u8) -> (yes: bool)
    ensures
        yes == is_domain_byte(byte),
{
    alphanumeric(byte) || byte == 0x2e || byte == 0x2d
}

/// Checks whether a text is a well-formed email address.
pub fn check_email(text: &[u8]) -> (valid: bool)
    ensures
        valid == is_email(text@),
{
    let length = text.len();
    // The local part ends at the first byte that cannot belong to it.
    let mut at: usize = 0;
    while at < length && local_byte(text[at])
        invariant
            at <= length,
            length == text@.len(),
            forall|i: int| 0 <= i < at ==> is_local_byte(#[trigger] text@[i]),
        decreases length - at,
    {
        at = at + 1;
    }
    // The top-level domain starts behind the last byte that is no letter.
    let mut dot: usize = length;
    while dot > 0 && letter(text[dot - 1])
        invariant
            dot <= length,
            length == text@.len(),
            forall|i: int| dot <= i < length ==> is_letter(#[trigger] text@[i]),
        decreases dot,
    {
        dot = dot - 1;
    }
    proof {
        // Any way of cutting the text cuts it at these two places.
        assert forall|a: int, d: int| splits_as_email(text@, a, d) implies a == at && d == dot
            - 1 by {
            if a < at {
                assert(is_local_byte(text@[a]));
            }
            if a > at {
                assert(is_local_byte(text@[at as int]));
            }
            if d < dot - 1 {
                assert(is_letter(text@[dot - 1]));
            }
            if d >= dot {
                assert(is_letter(text@[d]));
            }
        }
    }
    if dot == 0 {
        return false;
    }
    let dot: usize = dot - 1;
    if at == 0 || at >= length || text[at] != 0x40 {
        return false;
    }
    if text[dot] != 0x2e || dot <= at + 1 || length - dot < 3 {
        return false;
    }
    let mut index: usize = at + 1;
    while index < dot
        invariant
            at < index <= dot,
            dot < length,
            length == text@.len(),
            forall|i: int| at < i < index ==> is_domain_byte(#[trigger] text@[i]),
            forall|a: int, d: int| #[trigger] splits_as_email(text@, a, d) ==> a == at && d == dot,
        decreases dot - index,
    {
        if !domain_byte(text[index]) {
            assert(!splits_as_email(text@, at as int, dot as int));
            return false;
        }
        index = index + 1;
    }
    assert(splits_as_email(text@, at as int, dot as int));
    true
}

/// A well-formed email address.
#[derive(Clone, PartialEq, Eq, Debug)]
pub struct AuthEmail {
    pub email: String,
}

impl AuthEmail {
    /// Accepts the address if it is well formed: letters, digits and any of
    /// `._%+-`, then `@`, then letters, digits, `.` and `-`, then `.` and at
    /// least two letters. Anything else is an `EmailError`.
    pub fn new(email: String) -> (checked: Result<AuthEmail, FieldFormatError>)
        ensures
            match checked {
                Ok(address) => is_email(encode_utf8(email@)) && address.email == email,
                Err(error) => !is_email(encode_utf8(email@)) && error
                    == FieldFormatError::EmailError,
            },
    {
        if !check_email(email.as_str().as_bytes()) {
            return Err(FieldFormatError::EmailError);
        }
        Ok(AuthEmail { email })
    }
}

/// A well-formed user name.
#[derive(Clone, PartialEq, Eq, Debug)]
pub struct AuthUsername {
    pub username: String,
}

impl AuthUsername {
    /// Accepts the name if it takes 2 to 32 bytes. Anything else is a
    /// `UsernameError`.
    pub fn new(username: String) -> (checked: Result<AuthUsername, FieldFormatError>)
        ensures
            match checked {
                Ok(name) => is_username(encode_utf8(username@)) && name.username == username,
                Err(error) => !is_username(encode_utf8(username@)) && error
                    == FieldFormatError::UsernameError,
            },
    {
        let length = username.as_str().as_bytes().len();
        if length < 2 || length > 32 {
            Err(FieldFormatError::UsernameError)
        } else {
            Ok(AuthUsername { username })
        }
    }
}

/// A well-formed password.
#[derive(Clone, PartialEq, Eq, Debug)]
pub struct AuthPassword {
    pub password: String,
}

impl AuthPassword {
    /// Accepts the password if it takes 1 to 72 bytes. Anything else is a
    /// `PasswordError`.
    pub fn new(password: String) -> (checked: Result<AuthPassword, FieldFormatError>)
        ensures
            match checked {
                Ok(word) => is_password(encode_utf8(password@)) && word.password == password,
                Err(error) => !is_password(encode_utf8(password@)) && error
                    == FieldFormatError::PasswordError,
            },
    {
        let length = password.as_str().as_bytes().len();
        if length < 1 || length > 72 {
            Err(FieldFormatError::PasswordError)
        } else {
            Ok(AuthPassword { password })
        }
    }
}

/// What a registration is built from.
#[derive(Clone, PartialEq, Eq, Debug)]
pub struct RegisterSchemaOptions {
    pub username: String,
    pub password: Option<String>,
    pub consent: bool,
    pub email: Option<String>,
    pub fingerprint: Option<String>,
    pub invite: Option<String>,
    pub date_of_birth: Option<String>,
    pub gift_code_sku_id: Option<String>,
    pub captcha_key: Option<String>,
    pub promotional_email_opt_in: Option<bool>,
}

/// A registration whose fields have passed their checks.
#[derive(Clone, PartialEq, Eq, Debug)]
pub struct RegisterSchema {
    options: RegisterSchemaOptions,
}

/// The first check that the fields of a registration fail, in the order
/// user name, email, password, consent.
pub open spec fn first_fault(options: RegisterSchemaOptions) -> Option<FieldFormatError> {
    if !is_username(encode_utf8(options.username@)) {
        Some(FieldFormatError::UsernameError)
    } else if options.email is Some && !is_email(encode_utf8(options.email->0@)) {
        Some(FieldFormatError::EmailError)
    } else if options.password is Some && !is_password(encode_utf8(options.password->0@)) {
        Some(FieldFormatError::PasswordError)
    } else if !options.consent {
        Some(FieldFormatError::ConsentError)
    } else {
        None
    }
}

impl RegisterSchema {
    /// The fields that the registration was built from.
    pub closed spec fn fields(&self) -> RegisterSchemaOptions {
        self.options
    }

    /// Starts a registration from the two fields that it cannot do without.
    pub fn builder(username: &str, consent: bool) -> (options: RegisterSchemaOptions)
        ensures
            options.username@ == username@,
            options.consent == consent,
            options.password is None,
            options.email is None,
            options.fingerprint is None,
            options.invite is None,
            options.date_of_birth is None,
            options.gift_code_sku_id is None,
            options.captcha_key is None,
            options.promotional_email_opt_in is None,
    {
        RegisterSchemaOptions {
            username: username.to_owned(),
            password: None,
            consent,
            email: None,
            fingerprint: None,
            invite: None,
            date_of_birth: None,
            gift_code_sku_id: None,
            captcha_key: None,
            promotional_email_opt_in: None,
        }
    }

    /// Hands the checked fields back.
    pub fn into_options(self) -> (options: RegisterSchemaOptions)
        ensures
            options == self.fields(),
    {
        self.options
    }
}

impl RegisterSchemaOptions {
    /// Checks the fields and builds the registration. The checks are made in
    /// the order user name, email, password, consent, and the first that
    /// fails decides the error.
    pub fn build(self) -> (built: Result<RegisterSchema, FieldFormatError>)
        ensures
            match built {
                Ok(schema) => first_fault(self) is None && schema.fields() == self,
                Err(error) => first_fault(self) == Some(error),
            },
    {
        let length = self.username.as_str().as_bytes().len();
        if length < 2 || length > 32 {
            return Err(FieldFormatError::UsernameError);
        }
        match &self.email {
            Some(email) => {
                if !check_email(email.as_str().as_bytes()) {
                    return Err(FieldFormatError::EmailError);
                }
            },
            None => {},
        }
        match &self.password {
            Some(password) => {
                let length = password.as_str().as_bytes().len();
                if length < 1 || length > 72 {
                    return Err(FieldFormatError::PasswordError);
                }
            },
            None => {},
        }
        if !self.consent {
            return Err(FieldFormatError::ConsentError);
        }
        Ok(RegisterSchema { options: self })
    }
}

} // verus!
