//! String types that are never empty.
//!
//! - [`NonEmptyStr`]: a borrowed string slice that is not empty.
//! - [`NonEmptyString`]: an owned string that is not empty.

use vstd::prelude::*;
use vstd::std_specs::cmp::PartialEqSpecImpl;
use vstd::std_specs::convert::FromSpecImpl;
use vstd::std_specs::convert::TryFromSpecImpl;

verus! {

/// A borrowed string slice that is not empty.
#[derive(Clone, Copy, Debug, Hash, PartialOrd, Ord)]
pub struct NonEmptyStr<'a> {
    inner: &'a str,
}

impl<'a> View for NonEmptyStr<'a> {
    type V = Seq<char>;

    closed spec fn view(&self) -> Seq<char> {
        self.inner@
    }
}

impl<'a> NonEmptyStr<'a> {
    #[verifier::type_invariant]
    spec fn not_empty(self) -> bool {
        self.inner@.len() > 0
    }

    /// The value that holds `s`.
    pub closed spec fn wrap(s: &'a str) -> Self {
        NonEmptyStr { inner: s }
    }

    /// What [`new`](NonEmptyStr::new) answers: `s` itself, or an error for the
    /// empty string.
    pub open spec fn new_spec(s: &'a str) -> Result<Self, &'static str> {
        if s@.len() == 0 {
            Err("input str is empty")
        } else {
            Ok(Self::wrap(s))
        }
    }

    /// A value holds the characters of the string that it was made of.
    pub proof fn lemma_wrap_view(s: &'a str)
        ensures
            Self::wrap(s)@ == s@,
    {
    }

    /// Takes `s` as it is, unless it is empty.
    pub fn new(s: &'a str) -> (res: Result<Self, &'static str>)
        ensures
            res == Self::new_spec(s),
            res is Ok ==> res->Ok_0@ == s@,
    {
        if s.is_empty() {
            return Err("input str is empty");
        }
        Ok(NonEmptyStr { inner: s })
    }

    /// The string, which has at least one character.
    pub fn as_str(&self) -> (s: &str)
        ensures
            s@ == self@,
            s@.len() > 0,
    {
        proof {
            use_type_invariant(self);
        }
        self.inner
    }

    /// The string as an owned `String`.
    pub fn to_string(&self) -> (s: String)
        ensures
            s@ == self@,
    {
        self.inner.to_owned()
    }
}

impl AsRef<str> for NonEmptyStr<'_> {
    fn as_ref(&self) -> (s: &str)
        ensures
            str::view(s) == self@,
            str::view(s).len() > 0,
    {
        self.as_str()
    }
}

impl std::ops::Deref for NonEmptyStr<'_> {
    type Target = str;

    fn deref(&self) -> (s: &str)
        ensures
            s@ == self@,
    {
        self.inner
    }
}

impl std::borrow::Borrow<str> for NonEmptyStr<'_> {
    fn borrow(&self) -> (s: &str)
        ensures
            str::view(s) == self@,
            str::view(s).len() > 0,
    {
        self.as_str()
    }
}

impl AsRef<[u8]> for NonEmptyStr<'_> {
    fn as_ref(&self) -> (bytes: &[u8])
        ensures
            <[u8]>::view(bytes) == vstd::utf8::encode_utf8(self@),
    {
        self.as_str().as_bytes()
    }
}

impl<'a> TryFrom<&'a str> for NonEmptyStr<'a> {
    type Error = &'static str;

    fn try_from(value: &'a str) -> (res: Result<Self, &'static str>)
        ensures
            res == Self::new_spec(value),
            res is Ok ==> res->Ok_0@ == value@,
    {
        NonEmptyStr::new(value)
    }
}

impl<'a> TryFromSpecImpl<&'a str> for NonEmptyStr<'a> {
    open spec fn obeys_try_from_spec() -> bool {
        true
    }

    open spec fn try_from_spec(value: &'a str) -> Result<Self, &'static str> {
        Self::new_spec(value)
    }
}

impl PartialEq for NonEmptyStr<'_> {
    fn eq(&self, other: &Self) -> (equal: bool) {
        *self.inner == *other.inner
    }
}

impl PartialEqSpecImpl for NonEmptyStr<'_> {
    open spec fn obeys_eq_spec() -> bool {
        true
    }

    open spec fn eq_spec(&self, other: &Self) -> bool {
        self@ == other@
    }
}

impl Eq for NonEmptyStr<'_> {

}

impl PartialEq<str> for NonEmptyStr<'_> {
    fn eq(&self, other: &str) -> (equal: bool) {
        *self.inner == *other
    }
}

impl PartialEqSpecImpl<str> for NonEmptyStr<'_> {
    open spec fn obeys_eq_spec() -> bool {
        true
    }

    open spec fn eq_spec(&self, other: &str) -> bool {
        self@ == other@
    }
}

impl PartialEq<String> for NonEmptyStr<'_> {
    fn eq(&self, other: &String) -> (equal: bool) {
        *self.inner == *other.as_str()
    }
}

impl PartialEqSpecImpl<String> for NonEmptyStr<'_> {
    open spec fn obeys_eq_spec() -> bool {
        true
    }

    open spec fn eq_spec(&self, other: &String) -> bool {
        self@ == other@
    }
}

impl PartialEq<NonEmptyString> for NonEmptyStr<'_> {
    fn eq(&self, other: &NonEmptyString) -> (equal: bool) {
        *self.inner == *other.as_str()
    }
}

impl PartialEqSpecImpl<NonEmptyString> for NonEmptyStr<'_> {
    open spec fn obeys_eq_spec() -> bool {
        true
    }

    open spec fn eq_spec(&self, other: &NonEmptyString) -> bool {
        self@ == other@
    }
}

/// An owned string that is not empty.
#[derive(Debug, Hash, PartialOrd, Ord)]
pub struct NonEmptyString {
    inner: String,
}

impl View for NonEmptyString {
    type V = Seq<char>;

    closed spec fn view(&self) -> Seq<char> {
        self.inner@
    }
}

impl Clone for NonEmptyString {
    fn clone(&self) -> (copy: Self)
        ensures
            copy@ == self@,
    {
        proof {
            use_type_invariant(self);
        }
        NonEmptyString { inner: self.inner.clone() }
    }
}

impl NonEmptyString {
    #[verifier::type_invariant]
    spec fn not_empty(self) -> bool {
        self.inner@.len() > 0
    }

    /// The value that holds `s`.
    pub closed spec fn wrap(s: String) -> Self {
        NonEmptyString { inner: s }
    }

    /// What making a value of `s` answers: the value that holds `s`, or an
    /// error for the empty string.
    pub open spec fn new_spec(s: String) -> Result<Self, &'static str> {
        if s@.len() == 0 {
            Err("input is empty")
        } else {
            Ok(Self::wrap(s))
        }
    }

    /// The string that the value holds.
    pub closed spec fn into_string(self) -> String {
        self.inner
    }

    /// A value holds the string that it was made of, and so its characters.
    pub proof fn lemma_wrap_view(s: String)
        ensures
            Self::wrap(s)@ == s@,
            Self::wrap(s).into_string() == s,
    {
    }

    /// Takes the text that `s` is displayed as, unless that text is empty.
    pub fn new<T: std::fmt::Display + ?Sized>(s: &T) -> (res: Result<Self, &'static str>)
        ensures
            exists|text: String|
                {
                    &&& #[trigger] vstd::string::to_string_from_display_ensures::<T>(s, text)
                    &&& res == Self::new_spec(text)
                    &&& res is Ok ==> res->Ok_0@ == text@
                },
    {
        let text = s.to_string();
        Self::try_from(text)
    }

    /// The string, which has at least one character.
    pub fn as_str(&self) -> (s: &str)
        ensures
            s@ == self@,
            s@.len() > 0,
    {
        proof {
            use_type_invariant(self);
        }
        self.inner.as_str()
    }

    /// The same string, borrowed.
    pub fn as_non_empty_str(&self) -> (s: NonEmptyStr<'_>)
        ensures
            s@ == self@,
    {
        proof {
            use_type_invariant(self);
        }
        NonEmptyStr { inner: self.inner.as_str() }
    }

    /// The string as an owned `String`.
    pub fn to_string(&self) -> (s: String)
        ensures
            s@ == self@,
    {
        self.inner.clone()
    }
}

impl PartialEq for NonEmptyString {
    fn eq(&self, other: &Self) -> (equal: bool) {
        self.inner == other.inner
    }
}

impl PartialEqSpecImpl for NonEmptyString {
    open spec fn obeys_eq_spec() -> bool {
        true
    }

    open spec fn eq_spec(&self, other: &Self) -> bool {
        self@ == other@
    }
}

impl Eq for NonEmptyString {

}

impl PartialEq<str> for NonEmptyString {
    fn eq(&self, other: &str) -> (equal: bool) {
        *self.inner.as_str() == *other
    }
}

impl PartialEqSpecImpl<str> for NonEmptyString {
    open spec fn obeys_eq_spec() -> bool {
        true
    }

    open spec fn eq_spec(&self, other: &str) -> bool {
        self@ == other@
    }
}

impl PartialEq<String> for NonEmptyString {
    fn eq(&self, other: &String) -> (equal: bool) {
        self.inner == *other
    }
}

impl PartialEqSpecImpl<String> for NonEmptyString {
    open spec fn obeys_eq_spec() -> bool {
        true
    }

    open spec fn eq_spec(&self, other: &String) -> bool {
        self@ == other@
    }
}

impl<'a> PartialEq<NonEmptyStr<'a>> for NonEmptyString {
    fn eq(&self, other: &NonEmptyStr<'a>) -> (equal: bool) {
        *self.inner.as_str() == *other.as_str()
    }
}

impl<'a> PartialEqSpecImpl<NonEmptyStr<'a>> for NonEmptyString {
    open spec fn obeys_eq_spec() -> bool {
        true
    }

    open spec fn eq_spec(&self, other: &NonEmptyStr<'a>) -> bool {
        self@ == other@
    }
}

impl AsRef<str> for NonEmptyString {
    fn as_ref(&self) -> (s: &str)
        ensures
            str::view(s) == self@,
            str::view(s).len() > 0,
    {
        self.as_str()
    }
}

impl std::ops::Deref for NonEmptyString {
    type Target = str;

    fn deref(&self) -> (s: &str)
        ensures
            s@ == self@,
    {
        self.inner.as_str()
    }
}

impl std::borrow::Borrow<str> for NonEmptyString {
    fn borrow(&self) -> (s: &str)
        ensures
            str::view(s) == self@,
            str::view(s).len() > 0,
    {
        self.as_str()
    }
}

impl AsRef<[u8]> for NonEmptyString {
    fn as_ref(&self) -> (bytes: &[u8])
        ensures
            <[u8]>::view(bytes) == vstd::utf8::encode_utf8(self@),
    {
        self.as_str().as_bytes()
    }
}

impl<'a> From<NonEmptyStr<'a>> for NonEmptyString {
    fn from(value: NonEmptyStr<'a>) -> (owned: Self)
        ensures
            owned@ == value@,
    {
        proof {
            use_type_invariant(value);
        }
        NonEmptyString { inner: value.as_str().to_owned() }
    }
}

/// The conversion is told by the `ensures` of `from`: which of the strings
/// with these characters comes out is left open.
impl<'a> FromSpecImpl<NonEmptyStr<'a>> for NonEmptyString {
    open spec fn obeys_from_spec() -> bool {
        false
    }

    open spec fn from_spec(value: NonEmptyStr<'a>) -> Self {
        choose|owned: NonEmptyString| owned@ == value@
    }
}

impl From<NonEmptyString> for String {
    fn from(value: NonEmptyString) -> (s: String)
        ensures
            s == value.into_string(),
            s@ == value@,
    {
        value.inner
    }
}

impl FromSpecImpl<NonEmptyString> for String {
    open spec fn obeys_from_spec() -> bool {
        true
    }

    open spec fn from_spec(value: NonEmptyString) -> Self {
        value.into_string()
    }
}

impl std::str::FromStr for NonEmptyString {
    type Err = &'static str;

    fn from_str(s: &str) -> (res: Result<Self, &'static str>)
        ensures
            res is Err <==> s@.len() == 0,
            res is Err ==> res == Err::<Self, &'static str>("input is empty"),
            res is Ok ==> res->Ok_0@ == s@,
    {
        NonEmptyString::try_from(s)
    }
}

impl TryFrom<String> for NonEmptyString {
    type Error = &'static str;

    fn try_from(value: String) -> (res: Result<Self, &'static str>)
        ensures
            res == Self::new_spec(value),
            res is Ok ==> res->Ok_0@ == value@,
    {
        if value.as_str().is_empty() {
            return Err("input is empty");
        }
        Ok(NonEmptyString { inner: value })
    }
}

impl TryFromSpecImpl<String> for NonEmptyString {
    open spec fn obeys_try_from_spec() -> bool {
        true
    }

    open spec fn try_from_spec(value: String) -> Result<Self, &'static str> {
        Self::new_spec(value)
    }
}

impl<'a> TryFrom<&'a str> for NonEmptyString {
    type Error = &'static str;

    fn try_from(value: &'a str) -> (res: Result<Self, &'static str>)
        ensures
            res is Err <==> value@.len() == 0,
            res is Err ==> res == Err::<Self, &'static str>("input is empty"),
            res is Ok ==> res->Ok_0@ == value@,
    {
        let r = NonEmptyString::try_from(value.to_owned());
        r
    }
}

/// The conversion is told by the `ensures` of `try_from`: which of the strings
/// with these characters comes out is left open.
impl<'a> TryFromSpecImpl<&'a str> for NonEmptyString {
    open spec fn obeys_try_from_spec() -> bool {
        false
    }

    open spec fn try_from_spec(value: &'a str) -> Result<Self, &'static str> {
        if value@.len() == 0 {
            Err("input is empty")
        } else {
            Ok(choose|owned: NonEmptyString| owned@ == value@)
        }
    }
}

} // verus!
