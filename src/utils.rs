//! The machine's hardware id, from the contents of the files that may hold it.

use vstd::prelude::*;

verus! {

/// Why no hardware id could be had.
#[derive(Debug)]
pub enum HwIdError {
    /// No file that may hold the id could be read.
    NotFound,
    /// The file that was read holds no line; it is given whole.
    Malformed(String),
}

/// The first line of a text, as `str::lines` splits it.
pub uninterp spec fn first_line_of(s: Seq<char>) -> Seq<char>;

/// Relies on `str::lines`: an empty text has no line, any other has a first
/// one.
#[verifier::external_body]
fn first_line(s: &str) -> (r: Option<String>)
    ensures
        r is None <==> s@.len() == 0,
        r matches Some(l) ==> l@ == first_line_of(s@),
{
    match s.lines().next() {
        Some(l) => Some(l.to_string()),
        None => None,
    }
}

/// The first of `reads` that is a file's contents, if any.
pub open spec fn first_read(reads: Seq<Option<String>>) -> Option<String>
    decreases reads.len(),
{
    if reads.len() == 0 {
        None
    } else if reads[0] is Some {
        reads[0]
    } else {
        first_read(reads.drop_first())
    }
}

/// The hardware id from the results of reading, in order, the files that may
/// hold it (`None` where a file could not be read): the first line of the
/// first file read; `Malformed` when that file is empty; `NotFound` when none
/// was read.
pub fn get_id(reads: &Vec<Option<String>>) -> (r: Result<String, HwIdError>)
    ensures
        match first_read(reads@) {
            None => r matches Err(HwIdError::NotFound),
            Some(c) => if c@.len() == 0 {
                r matches Err(HwIdError::Malformed(m)) && m@ == c@
            } else {
                r matches Ok(id) && id@ == first_line_of(c@)
            },
        },
{
    let n = reads.len();
    let mut i: usize = 0;
    assert(reads@.subrange(0, n as int) =~= reads@);
    while i < n
        invariant
            n == reads@.len(),
            i <= n,
            first_read(reads@) == first_read(reads@.subrange(i as int, n as int)),
        decreases n - i,
    {
        let ghost rest = reads@.subrange(i as int, n as int);
        assert(rest.drop_first() =~= reads@.subrange(i + 1, n as int));
        if let Some(contents) = &reads[i] {
            return match first_line(contents.as_str()) {
                Some(line) => Ok(line),
                None => Err(HwIdError::Malformed(contents.clone())),
            };
        }
        i = i + 1;
    }
    Err(HwIdError::NotFound)
}

} // verus!
