//! Validated value types: `Email`, `Name` and `Password`, and the `User`
//! aggregate built from them.
//!
//! Each value type has a fallible factory (`new`) that enforces the type's
//! invariant, and no other way to build a value, so every value of these
//! types satisfies its invariant for its whole lifetime.

use vstd::prelude::*;
use vstd::string::StrSliceExecFns;

verus! {

/// A validation failure, identifying the rule that was violated.
#[derive(Debug)]
pub enum UserError {
    EmptyName,
    InvalidEmail(String),
    InvalidPassword(String),
}

/// The characters that trimming removes: the Unicode `White_Space` set.
pub open spec fn is_space(c: char) -> bool {
    ||| c == '\u{0009}'
    ||| c == '\u{000A}'
    ||| c == '\u{000B}'
    ||| c == '\u{000C}'
    ||| c == '\u{000D}'
    ||| c == ' '
    ||| c == '\u{0085}'
    ||| c == '\u{00A0}'
    ||| c == '\u{1680}'
    ||| c == '\u{2000}'
    ||| c == '\u{2001}'
    ||| c == '\u{2002}'
    ||| c == '\u{2003}'
    ||| c == '\u{2004}'
    ||| c == '\u{2005}'
    ||| c == '\u{2006}'
    ||| c == '\u{2007}'
    ||| c == '\u{2008}'
    ||| c == '\u{2009}'
    ||| c == '\u{200A}'
    ||| c == '\u{2028}'
    ||| c == '\u{2029}'
    ||| c == '\u{202F}'
    ||| c == '\u{205F}'
    ||| c == '\u{3000}'
}

/// A string is trim-empty when every character is whitespace; in particular
/// the empty string is trim-empty.
pub open spec fn trim_empty(s: Seq<char>) -> bool {
    forall|i: int| 0 <= i < s.len() ==> is_space(s[i])
}

fn is_space_char(c: char) -> (r: bool)
    ensures
        r == is_space(c),
{
    match c {
        '\u{0009}' | '\u{000A}' | '\u{000B}' | '\u{000C}' | '\u{000D}' | ' ' | '\u{0085}'
            | '\u{00A0}' | '\u{1680}' | '\u{2000}' | '\u{2001}' | '\u{2002}' | '\u{2003}'
            | '\u{2004}' | '\u{2005}' | '\u{2006}' | '\u{2007}' | '\u{2008}' | '\u{2009}'
            | '\u{200A}' | '\u{2028}' | '\u{2029}' | '\u{202F}' | '\u{205F}' | '\u{3000}' => true,
        _ => false,
    }
}

/// Whether the string contains whitespace only (or nothing at all).
pub fn is_trim_empty(s: &str) -> (r: bool)
    ensures
        r == trim_empty(s@),
{
    let n = s.unicode_len();
    let mut i: usize = 0;
    while i < n
        invariant
            n == s@.len(),
            i <= n,
            forall|j: int| 0 <= j < i ==> is_space(s@[j]),
        decreases n - i,
    {
        if !is_space_char(s.get_char(i)) {
            return false;
        }
        i += 1;
    }
    true
}

/// An email address; invariant: not empty after trimming whitespace.
/// Equality is exact string equality: no normalization is applied.
pub struct Email(String);

impl View for Email {
    type V = Seq<char>;

    closed spec fn view(&self) -> Seq<char> {
        self.0@
    }
}

impl Email {
    #[verifier::type_invariant]
    spec fn inv(self) -> bool {
        !trim_empty(self.0@)
    }

    /// Accepts exactly the strings that are not trim-empty, and stores the
    /// text unchanged.
    pub fn new(addr: &str) -> (r: Result<Self, UserError>)
        ensures
            match r {
                Ok(e) => !trim_empty(addr@) && e@ == addr@,
                Err(err) => trim_empty(addr@) && err matches UserError::InvalidEmail(_),
            },
    {
        if is_trim_empty(addr) {
            Err(UserError::InvalidEmail("empty email".to_owned()))
        } else {
            Ok(Email(addr.to_owned()))
        }
    }

    pub fn into_inner(self) -> (r: String)
        ensures
            r@ == self@,
    {
        self.0
    }

    pub fn as_str(&self) -> (r: &str)
        ensures
            r@ == self@,
    {
        self.0.as_str()
    }
}

impl Clone for Email {
    fn clone(&self) -> (r: Self)
        ensures
            r == *self,
    {
        proof {
            use_type_invariant(self);
        }
        Email(self.0.clone())
    }
}

impl PartialEq for Email {
    fn eq(&self, other: &Self) -> (r: bool) {
        self.0 == other.0
    }
}

impl vstd::std_specs::cmp::PartialEqSpecImpl for Email {
    open spec fn obeys_eq_spec() -> bool {
        true
    }

    open spec fn eq_spec(&self, other: &Self) -> bool {
        self@ == other@
    }
}

/// A display name; invariant: not empty after trimming whitespace.
pub struct Name(String);

impl View for Name {
    type V = Seq<char>;

    closed spec fn view(&self) -> Seq<char> {
        self.0@
    }
}

impl Name {
    #[verifier::type_invariant]
    spec fn inv(self) -> bool {
        !trim_empty(self.0@)
    }

    /// Accepts exactly the strings that are not trim-empty, and stores the
    /// text unchanged.
    pub fn new(name: &str) -> (r: Result<Self, UserError>)
        ensures
            match r {
                Ok(n) => !trim_empty(name@) && n@ == name@,
                Err(err) => trim_empty(name@) && err matches UserError::EmptyName,
            },
    {
        if is_trim_empty(name) {
            Err(UserError::EmptyName)
        } else {
            Ok(Name(name.to_owned()))
        }
    }

    pub fn into_inner(self) -> (r: String)
        ensures
            r@ == self@,
    {
        self.0
    }

    pub fn as_str(&self) -> (r: &str)
        ensures
            r@ == self@,
    {
        self.0.as_str()
    }
}

impl Clone for Name {
    fn clone(&self) -> (r: Self)
        ensures
            r == *self,
    {
        proof {
            use_type_invariant(self);
        }
        Name(self.0.clone())
    }
}

/// A password; invariant: at least 5 characters. The stored and compared
/// value is the raw secret: no hashing or salting is applied, a known
/// weakness kept for behavioural fidelity.
pub struct Password(String);

impl View for Password {
    type V = Seq<char>;

    closed spec fn view(&self) -> Seq<char> {
        self.0@
    }
}

impl Password {
    #[verifier::type_invariant]
    spec fn inv(self) -> bool {
        self.0@.len() >= 5
    }

    /// Accepts exactly the strings of 5 or more characters, and stores the
    /// text unchanged.
    pub fn new(pass: &str) -> (r: Result<Self, UserError>)
        ensures
            match r {
                Ok(p) => pass@.len() >= 5 && p@ == pass@,
                Err(err) => pass@.len() < 5 && err matches UserError::InvalidPassword(_),
            },
    {
        if pass.unicode_len() < 5 {
            Err(UserError::InvalidPassword("password length less than 5".to_owned()))
        } else {
            Ok(Password(pass.to_owned()))
        }
    }

    pub fn into_inner(self) -> (r: String)
        ensures
            r@ == self@,
    {
        self.0
    }
}

impl Clone for Password {
    fn clone(&self) -> (r: Self)
        ensures
            r == *self,
    {
        proof {
            use_type_invariant(self);
        }
        Password(self.0.clone())
    }
}

impl PartialEq for Password {
    fn eq(&self, other: &Self) -> (r: bool) {
        self.0 == other.0
    }
}

impl vstd::std_specs::cmp::PartialEqSpecImpl for Password {
    open spec fn obeys_eq_spec() -> bool {
        true
    }

    open spec fn eq_spec(&self, other: &Self) -> bool {
        self@ == other@
    }
}

/// The mathematical value of a `User`: its three fields as character
/// sequences.
pub ghost struct UserV {
    pub name: Seq<char>,
    pub email: Seq<char>,
    pub password: Seq<char>,
}

/// A user record: a name, an email (its identity in the store) and a
/// password.
pub struct User {
    pub name: Name,
    pub email: Email,
    pub password: Password,
}

impl View for User {
    type V = UserV;

    open spec fn view(&self) -> UserV {
        UserV { name: self.name@, email: self.email@, password: self.password@ }
    }
}

impl Clone for User {
    fn clone(&self) -> (r: Self)
        ensures
            r == *self,
    {
        User { name: self.name.clone(), email: self.email.clone(), password: self.password.clone() }
    }
}

} // verus!
