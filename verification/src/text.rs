//! Arguments that become owned strings.
//!
//! The constructors of the library take their names and descriptions either
//! as string slices or as owned strings; `IntoText` says what string each one
//! becomes, so that the constructors' contracts can speak of it.

use vstd::prelude::*;

verus! {

/// A value that can be turned into an owned `String`.
pub trait IntoText: Sized {
    /// The characters of the string that the value becomes.
    spec fn text_view(&self) -> Seq<char>;

    /// Turns the value into an owned `String` with the same characters.
    fn into_text(self) -> (s: String)
        ensures
            s@ == self.text_view(),
    ;
}

impl IntoText for String {
    open spec fn text_view(&self) -> Seq<char> {
        self@
    }

    fn into_text(self) -> (s: String)
        ensures
            s@ == self@,
    {
        self
    }
}

impl<'a> IntoText for &'a str {
    open spec fn text_view(&self) -> Seq<char> {
        (**self)@
    }

    fn into_text(self) -> (s: String)
        ensures
            s@ == self@,
    {
        self.to_owned()
    }
}

impl<'a> IntoText for &'a String {
    open spec fn text_view(&self) -> Seq<char> {
        (**self)@
    }

    fn into_text(self) -> (s: String)
        ensures
            s@ == (*self)@,
    {
        self.clone()
    }
}

impl IntoText for Box<str> {
    open spec fn text_view(&self) -> Seq<char> {
        (**self)@
    }

    fn into_text(self) -> (s: String)
        ensures
            s@ == (*self)@,
    {
        (*self).to_owned()
    }
}

impl<'a> IntoText for std::borrow::Cow<'a, str> {
    open spec fn text_view(&self) -> Seq<char> {
        self@
    }

    fn into_text(self) -> (s: String)
        ensures
            s@ == self@,
    {
        match self {
            std::borrow::Cow::Borrowed(borrowed) => borrowed.to_owned(),
            std::borrow::Cow::Owned(owned) => owned,
        }
    }
}

/// Each argument becomes the string that it denotes: an owned `String` itself,
/// a `&str`, `&String` or `Box<str>` the characters it points to, and a
/// `Cow<str>` the characters it holds, borrowed or owned.
pub proof fn lemma_text_views(
    owned: String,
    slice: &str,
    borrowed: &String,
    boxed: Box<str>,
    cow: std::borrow::Cow<'_, str>,
)
    ensures
        <String as IntoText>::text_view(&owned) == owned@,
        <&str as IntoText>::text_view(&slice) == slice@,
        <&String as IntoText>::text_view(&borrowed) == (*borrowed)@,
        <Box<str> as IntoText>::text_view(&boxed) == (*boxed)@,
        <std::borrow::Cow<'_, str> as IntoText>::text_view(&cow) == match cow {
            std::borrow::Cow::Borrowed(b) => b@,
            std::borrow::Cow::Owned(o) => o@,
        },
{
}

} // verus!
