//! Shell completion scripts.
//!
//! The script itself is generated elsewhere; what is done here is to turn
//! the generated bytes into text and, for zsh, to make the script complete
//! the argument of `load` with the names of the stored sessions.

use vstd::prelude::*;
use vstd::string::*;
use vstd::utf8::{decode_utf8, valid_utf8};

use crate::text::same_text;

verus! {

/// `std::string::FromUtf8Error`, the error of `String::from_utf8`. Nothing
/// is known of what it holds; it is carried through as it is.
#[verifier::external_type_specification]
#[verifier::external_body]
pub struct ExFromUtf8Error(std::string::FromUtf8Error);

/// Why a completion script could not be produced.
#[derive(Debug, PartialEq)]
pub enum Error {
    /// The generated script is not UTF-8.
    InvalidUtf8(std::string::FromUtf8Error),
    /// The text to be replaced does not occur in the script.
    ReplacementNotFound(String),
}

/// An [`Error`] as plain values.
pub enum ErrorView {
    InvalidUtf8,
    ReplacementNotFound(Seq<char>),
}

impl View for Error {
    type V = ErrorView;

    open spec fn view(&self) -> ErrorView {
        match self {
            Error::InvalidUtf8(_) => ErrorView::InvalidUtf8,
            Error::ReplacementNotFound(needle) => ErrorView::ReplacementNotFound(needle@),
        }
    }
}

/// The shells for which a completion script can be asked.
#[derive(Clone, Copy, Debug, PartialEq, Eq, Structural)]
pub enum Shell {
    Bash,
    Elvish,
    Fish,
    PowerShell,
    Zsh,
}

/// Whether `needle` stands in `haystack` at position `at`.
pub open spec fn occurs_at(haystack: Seq<char>, needle: Seq<char>, at: int) -> bool {
    &&& 0 <= at
    &&& at + needle.len() <= haystack.len()
    &&& haystack.subrange(at, at + needle.len()) == needle
}

/// Whether `needle` stands in `haystack` at position `at` and nowhere before.
pub open spec fn first_occurs_at(haystack: Seq<char>, needle: Seq<char>, at: int) -> bool {
    &&& occurs_at(haystack, needle, at)
    &&& forall|earlier: int| 0 <= earlier < at ==> !occurs_at(haystack, needle, earlier)
}

/// Whether `needle` stands anywhere in `haystack`.
pub open spec fn occurs(haystack: Seq<char>, needle: Seq<char>) -> bool {
    exists|at: int| occurs_at(haystack, needle, at)
}

/// `haystack` with the `length` characters at position `at` replaced.
pub open spec fn spliced(haystack: Seq<char>, at: int, length: int, replacement: Seq<char>) -> Seq<
    char,
> {
    haystack.take(at) + replacement + haystack.skip(at + length)
}

/// `haystack` with the first occurrence of `needle` replaced, or the needle
/// where it does not occur.
pub open spec fn replaced(haystack: Seq<char>, needle: Seq<char>, replacement: Seq<char>) -> Result<
    Seq<char>,
    ErrorView,
> {
    if occurs(haystack, needle) {
        let at = choose|at: int| first_occurs_at(haystack, needle, at);
        Ok(spliced(haystack, at, needle.len() as int, replacement))
    } else {
        Err(ErrorView::ReplacementNotFound(needle))
    }
}

/// Replaces the first occurrence of `needle` in `haystack`. Where the needle
/// does not occur the haystack stays as it is and the needle is reported.
pub fn replace(haystack: &mut String, needle: &str, replacement: &str) -> (result: Result<
    (),
    Error,
>)
    ensures
        match replaced(old(haystack)@, needle@, replacement@) {
            Ok(text) => result is Ok && final(haystack)@ == text,
            Err(error) => result is Err && result->Err_0@ == error && final(haystack)@ == old(
                haystack,
            )@,
        },
{
    let length = haystack.as_str().unicode_len();
    let needle_length = needle.unicode_len();
    if needle_length > length {
        return Err(Error::ReplacementNotFound(String::from_str(needle)));
    }
    let last = length - needle_length;
    let mut at: usize = 0;
    while at <= last
        invariant
            length == haystack@.len(),
            needle_length == needle@.len(),
            last == length - needle_length,
            at <= last,
            haystack@ == old(haystack)@,
            forall|earlier: int| 0 <= earlier < at ==> !occurs_at(haystack@, needle@, earlier),
        decreases last - at,
    {
        if same_text(haystack.as_str().substring_char(at, at + needle_length), needle) {
            let mut text = String::from_str(haystack.as_str().substring_char(0, at));
            text.append(replacement);
            text.append(haystack.as_str().substring_char(at + needle_length, length));
            proof {
                let first = choose|first: int| first_occurs_at(haystack@, needle@, first);
                assert(first_occurs_at(haystack@, needle@, at as int));
                assert(first == at);
                assert(text@ =~= spliced(haystack@, first, needle_length as int, replacement@));
            }
            *haystack = text;
            return Ok(());
        }
        if at == last {
            return Err(Error::ReplacementNotFound(String::from_str(needle)));
        }
        at = at + 1;
    }
    Err(Error::ReplacementNotFound(String::from_str(needle)))
}

/// What the zsh script says of the argument of `load`.
pub fn zsh_needle() -> (text: &'static str)
    ensures
        text@ == zsh_needle_text(),
{
    r#"(load)
_arguments "${_arguments_options[@]}" : \
'-h[Print help]' \
'--help[Print help]' \
':session:_default' \"#
}

/// What it is to say instead: that the argument is one of the names that
/// `tp list` prints.
pub fn zsh_replacement() -> (text: &'static str)
    ensures
        text@ == zsh_replacement_text(),
{
    r#"(load)
_arguments "${_arguments_options[@]}" : \
'-h[Print help]' \
'--help[Print help]' \
':session:($(tp list))' \"#
}

/// The characters of [`zsh_needle`].
pub open spec fn zsh_needle_text() -> Seq<char> {
    r#"(load)
_arguments "${_arguments_options[@]}" : \
'-h[Print help]' \
'--help[Print help]' \
':session:_default' \"#@
}

/// The characters of [`zsh_replacement`].
pub open spec fn zsh_replacement_text() -> Seq<char> {
    r#"(load)
_arguments "${_arguments_options[@]}" : \
'-h[Print help]' \
'--help[Print help]' \
':session:($(tp list))' \"#@
}

/// The script as it is handed out for the shell: for zsh with the argument
/// of `load` completed from the stored sessions, for every other shell as
/// it was generated.
pub open spec fn patched(shell: Shell, script: Seq<char>) -> Result<Seq<char>, ErrorView> {
    if shell == Shell::Zsh {
        replaced(script, zsh_needle_text(), zsh_replacement_text())
    } else {
        Ok(script)
    }
}

/// Adapts a generated script to the shell it is for.
pub fn patch(shell: Shell, content: &mut String) -> (result: Result<(), Error>)
    ensures
        match patched(shell, old(content)@) {
            Ok(text) => result is Ok && final(content)@ == text,
            Err(error) => result is Err && result->Err_0@ == error && final(content)@ == old(
                content,
            )@,
        },
{
    match shell {
        Shell::Zsh => replace(content, zsh_needle(), zsh_replacement()),
        _ => Ok(()),
    }
}

/// `String::from_utf8` of std: the bytes as text where they are UTF-8, and
/// an error where they are not. The text holds the characters that the bytes
/// encode.
#[verifier::external_body]
fn text_from_utf8(bytes: Vec<u8>) -> (text: Result<String, std::string::FromUtf8Error>)
    ensures
        text is Ok <==> valid_utf8(bytes@),
        text is Ok ==> text->Ok_0@ == decode_utf8(bytes@),
{
    String::from_utf8(bytes)
}

/// The completion script for `shell` as text, given the bytes that were
/// generated for it.
pub open spec fn script(shell: Shell, generated: Seq<u8>) -> Result<Seq<char>, ErrorView> {
    if valid_utf8(generated) {
        patched(shell, decode_utf8(generated))
    } else {
        Err(ErrorView::InvalidUtf8)
    }
}

/// The result of [`completion_script`] as plain values.
pub open spec fn script_view(result: Result<String, Error>) -> Result<Seq<char>, ErrorView> {
    match result {
        Ok(text) => Ok(text@),
        Err(error) => Err(error@),
    }
}

/// Turns the bytes generated for `shell` into the script that is handed
/// out.
pub fn completion_script(shell: Shell, generated: Vec<u8>) -> (result: Result<String, Error>)
    ensures
        script_view(result) == script(shell, generated@),
{
    let mut content = match text_from_utf8(generated) {
        Ok(text) => text,
        Err(error) => {
            return Err(Error::InvalidUtf8(error));
        },
    };
    match patch(shell, &mut content) {
        Ok(()) => Ok(content),
        Err(error) => Err(error),
    }
}

} // verus!
