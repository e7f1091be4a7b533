use vstd::prelude::*;
use vstd::string::StrSliceExecFns;

verus! {

/// The characters of `s` with leading and trailing whitespace removed, as
/// `str::trim` computes them. Validity of names and descriptions is stated
/// over this trimmed form.
pub uninterp spec fn trim_of(s: Seq<char>) -> Seq<char>;

/// Relies on `str::trim`: the result is the input without its leading and
/// trailing whitespace, so it is never longer than the input.
#[verifier::external_body]
pub(crate) fn trim_ref<'a>(s: &'a str) -> (r: &'a str)
    ensures
        r@ == trim_of(s@),
        r@.len() <= s@.len(),
{
    s.trim()
}

/// Length in characters of `s` once trimmed.
pub fn trimmed_len(s: &str) -> (n: usize)
    ensures
        n == trim_of(s@).len(),
{
    trim_ref(s).unicode_len()
}

/// A valid description: between 1 and 100 characters once trimmed.
pub open spec fn valid_description(s: Seq<char>) -> bool {
    1 <= trim_of(s).len() <= 100
}

/// A valid option name: between 1 and 32 characters once trimmed.
pub open spec fn valid_option_name(s: Seq<char>) -> bool {
    1 <= trim_of(s).len() <= 32
}

/// A valid command name: non-empty once trimmed.
pub open spec fn valid_command_name(s: Seq<char>) -> bool {
    trim_of(s).len() >= 1
}

/// Checks a description's trimmed length against 1..=100.
pub fn is_valid_description(s: &str) -> (r: bool)
    ensures
        r == valid_description(s@),
{
    let n: usize = trimmed_len(s);
    1 <= n && n <= 100
}

/// Checks an option name's trimmed length against 1..=32.
pub fn is_valid_option_name(s: &str) -> (r: bool)
    ensures
        r == valid_option_name(s@),
{
    let n: usize = trimmed_len(s);
    1 <= n && n <= 32
}

/// Checks that a command name is non-empty once trimmed.
pub fn is_valid_command_name(s: &str) -> (r: bool)
    ensures
        r == valid_command_name(s@),
{
    let n: usize = trimmed_len(s);
    n >= 1
}

} // verus!
