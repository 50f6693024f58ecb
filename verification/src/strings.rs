//! Putting strings together.
use vstd::prelude::*;
use vstd::string::*;

verus! {

/// The three texts in a row, with a hyphen between each two.
pub open spec fn hyphenated(s1: Seq<char>, s2: Seq<char>, s3: Seq<char>) -> Seq<char> {
    s1 + "-"@ + s2 + "-"@ + s3
}

/// `s1` with `s2` behind it. The first string is used up; the second is only
/// read.
pub fn cat_strings_with_plus(s1: String, s2: &String) -> (s3: String)
    ensures
        s3@ == s1@ + s2@,
{
    s1.concat(s2.as_str())
}

/// The three strings joined by hyphens, by adding piece after piece to the
/// first, which is used up.
pub fn cat_mult_strings_plus(s1: String, s2: &String, s3: &String) -> (s: String)
    ensures
        s@ == hyphenated(s1@, s2@, s3@),
{
    s1.concat("-").concat(s2.as_str()).concat("-").concat(s3.as_str())
}

/// The three strings joined by hyphens, in a new string; none is used up.
pub fn cat_mult_strings_println_macro(s1: &String, s2: &String, s3: &String) -> (s: String)
    ensures
        s@ == hyphenated(s1@, s2@, s3@),
{
    let mut s = s1.clone();
    s.append("-");
    s.append(s2.as_str());
    s.append("-");
    s.append(s3.as_str());
    s
}

} // verus!
