//! The demonstration steps themselves. Every file-system outcome reaches
//! these functions as a plain `Result` or `Option` value; each function
//! shows one way of reacting to success or failure.
use vstd::prelude::*;

verus! {

/// The greeting of the introductory demonstration.
pub fn first() -> (m: String)
    ensures
        m@ == "Hello, world!"@,
{
    "Hello, world!".to_owned()
}

/// The diagnostic of the demonstration that always terminates unrecoverably;
/// the caller aborts the process with it.
pub fn second() -> (m: String)
    ensures
        m@ == "crash and burn"@,
{
    "crash and burn".to_owned()
}

/// Unwraps an open's outcome where failure counts as unrecoverable. The
/// caller must have ruled failure out — or must abort instead of calling.
pub fn step1<T, E>(open_result: Result<T, E>) -> (file: T)
    requires
        open_result is Ok,
    ensures
        open_result matches Ok(f) && file == f,
{
    match open_result {
        Ok(f) => f,
        Err(_) => vstd::pervasive::unreached(),
    }
}

/// The same unwrapping, through the standard shorthand.
pub fn step1_1<T, E: core::fmt::Debug>(open_result: Result<T, E>) -> (file: T)
    requires
        open_result is Ok,
    ensures
        open_result matches Ok(f) && file == f,
{
    open_result.unwrap()
}

/// The same unwrapping, with the diagnostic replaced by a fixed message.
pub fn step1_2<T, E: core::fmt::Debug>(open_result: Result<T, E>) -> (file: T)
    requires
        open_result is Ok,
    ensures
        open_result matches Ok(f) && file == f,
{
    open_result.expect("crashed here")
}

/// Squashes an open's outcome to presence or absence, discarding the error's
/// diagnostic entirely; the caller must branch on both cases.
pub fn step4<T, E>(open_result: Result<T, E>) -> (r: Option<T>)
    ensures
        open_result matches Ok(f) ==> r == Some(f),
        open_result is Err ==> r is None,
{
    match open_result {
        Ok(f) => Some(f),
        Err(_) => None,
    }
}

/// The same squashing, through the standard conversion.
pub fn step4_1<T, E>(open_result: Result<T, E>) -> (r: Option<T>)
    ensures
        open_result matches Ok(f) ==> r == Some(f),
        open_result is Err ==> r is None,
{
    open_result.ok()
}

/// The orchestration's decision. Given the outcome of the optional open of
/// the greeting file: presence is overall success, and absence yields the
/// diagnostic with which the caller must terminate the process immediately
/// and unrecoverably — absence is never recovered from.
pub fn outer<T>(greeting_file: Option<T>) -> (r: Result<(), String>)
    ensures
        r is Ok <==> greeting_file is Some,
        greeting_file is None ==> (r matches Err(m) && m@ == "no file"@),
{
    match greeting_file {
        Some(_) => Ok(()),
        None => Err("no file".to_owned()),
    }
}

} // verus!
