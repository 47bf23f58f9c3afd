//! A sample report of an error in a text.
use vstd::prelude::*;

verus! {

/// An error at a place in a text.
#[derive(Debug, PartialEq, Eq)]
pub struct MyBad {
    /// The name of the text.
    pub src_name: String,
    /// The text.
    pub src: String,
    /// Where the bad bit begins, in bytes, and how long it is.
    pub bad_bit: (usize, usize),
}

/// The error that [`this_fails`] gives.
pub open spec fn is_sample(bad: MyBad) -> bool {
    &&& bad.src_name@ == "bad_file.rs"@
    &&& bad.src@ == "505050\n  v我50\n    505050"@
    &&& bad.bad_bit == (9usize, 4usize)
}

/// Always fails.
pub fn this_fails() -> (result: Result<(), MyBad>)
    ensures
        result matches Err(bad) && is_sample(bad),
{
    let src: String = "505050\n  v我50\n    505050".to_string();
    Err(MyBad { src_name: "bad_file.rs".to_string(), src, bad_bit: (9, 4) })
}

/// Fails as [`this_fails`] does.
pub fn pretend_this_is_main() -> (result: Result<(), MyBad>)
    ensures
        result matches Err(bad) && is_sample(bad),
{
    this_fails()?;
    Ok(())
}

} // verus!
