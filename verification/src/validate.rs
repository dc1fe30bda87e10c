//! The layered validator: content must have exactly three lines and none of
//! them may contain the forbidden text "bad".
use crate::failure::Failure;
use crate::lines::contains_bad;
use crate::lines::line_contains_bad;
use crate::lines::lines_of;
use crate::lines::split_lines;
use vstd::prelude::*;

verus! {

/// The number of lines the validator expects.
pub const EXPECTED_LINES: usize = 3;

/// Content the validator accepts: exactly three lines, none containing the
/// forbidden text.
pub open spec fn valid_content(s: Seq<char>) -> bool {
    &&& lines_of(s).len() == EXPECTED_LINES
    &&& forall|j: int| 0 <= j < lines_of(s).len() ==> !contains_bad(#[trigger] lines_of(s)[j])
}

/// What the validator says of content `s`: success returns `s` itself, and
/// each failing evaluation produces exactly the one variant that describes
/// it. `ContentNotFound` never arises from content that was read.
pub open spec fn validates_to(s: Seq<char>, r: Result<String, Failure>) -> bool {
    match r {
        Ok(c) => c@ == s && valid_content(s),
        Err(f) => match f {
            Failure::ContentNotFound => false,
            Failure::ToFewLines(n) => n == lines_of(s).len() && lines_of(s).len() < EXPECTED_LINES,
            Failure::ToManyLines(n) => n == lines_of(s).len() && lines_of(s).len() > EXPECTED_LINES,
            Failure::InvalidLine(i, l) => {
                &&& lines_of(s).len() == EXPECTED_LINES
                &&& i < EXPECTED_LINES
                &&& contains_bad(lines_of(s)[i as int])
                &&& l@ == lines_of(s)[i as int]
                &&& forall|j: int| 0 <= j < i ==> !contains_bad(#[trigger] lines_of(s)[j])
            },
        },
    }
}

/// Checks `contents` against the expected shape: exactly three lines, the
/// first line containing "bad" (if any) rejected with its index and text,
/// and success returning the content unchanged.
pub fn validate_content(contents: String) -> (r: Result<String, Failure>)
    ensures
        validates_to(contents@, r),
        r is Ok <==> valid_content(contents@),
{
    let lines = split_lines(contents.as_str());
    let count = lines.len();
    proof {
        assert(count == lines_of(contents@).len());
    }
    if count < EXPECTED_LINES {
        return Err(Failure::ToFewLines(count));
    }
    if count > EXPECTED_LINES {
        return Err(Failure::ToManyLines(count));
    }
    let mut index: usize = 0;
    while index < EXPECTED_LINES
        invariant
            count == EXPECTED_LINES,
            lines.deep_view() == lines_of(contents@),
            lines@.len() == count,
            index <= EXPECTED_LINES,
            forall|j: int| 0 <= j < index ==> !contains_bad(#[trigger] lines_of(contents@)[j]),
        decreases EXPECTED_LINES - index,
    {
        let line = lines[index];
        if line_contains_bad(line) {
            proof {
                assert(line@ == lines_of(contents@)[index as int]);
            }
            return Err(Failure::InvalidLine(index, line.to_owned()));
        }
        proof {
            assert(line@ == lines_of(contents@)[index as int]);
        }
        index += 1;
    }
    Ok(contents)
}

/// Maps a read's outcome through the validator: a failed read (`None`)
/// becomes `ContentNotFound` — and nothing else ever does — and content that
/// was read is validated as `validates_to` describes.
pub fn step3(read_result: Option<String>) -> (r: Result<String, Failure>)
    ensures
        (r matches Err(f) && f is ContentNotFound) <==> read_result is None,
        read_result matches Some(c) ==> validates_to(c@, r),
        read_result matches Some(c) ==> (r is Ok <==> valid_content(c@)),
{
    match read_result {
        Some(contents) => validate_content(contents),
        None => Err(Failure::ContentNotFound),
    }
}

/// Validation is stable under its own success: the accepted result is the
/// input itself, so the very same result is a correct validation of the
/// content it returned — re-reading and re-validating accepted content can
/// change nothing.
pub proof fn lemma_validation_idempotent(s: Seq<char>, r: Result<String, Failure>)
    requires
        validates_to(s, r),
        r is Ok,
    ensures
        validates_to(r->Ok_0@, r),
{
}

} // verus!
