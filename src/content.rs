use vstd::prelude::*;
use vstd::utf8::encode_utf8;

use crate::error::ForumError;

verus! {

/// Longest text of a post, in bytes of UTF-8, after trimming.
pub const MAX_TEXT_LEN: usize = 500;

/// Longest text of a comment, in bytes of UTF-8, after trimming.
pub const MAX_COMMENT_LEN: usize = 500;

/// What `str::trim` leaves of a text: the characters between its leading and
/// trailing whitespace.
pub uninterp spec fn trim_of(s: Seq<char>) -> Seq<char>;

/// Relies on `str::trim`: the text with leading and trailing whitespace
/// removed, a function of the characters alone; an empty text stays empty.
#[verifier::external_body]
fn trim_text(s: &str) -> (r: &str)
    ensures
        r@ == trim_of(s@),
        s@.len() == 0 ==> r@.len() == 0,
{
    s.trim()
}

/// The length of a text in bytes of UTF-8.
pub open spec fn byte_len(text: Seq<char>) -> nat {
    encode_utf8(text).len()
}

/// The verdict on an already trimmed text: it must not be empty unless an
/// image is attached, and must not be longer than `max_len` bytes.
pub open spec fn content_verdict(trimmed: Seq<char>, has_image: bool, max_len: usize) -> Result<
    (),
    ForumError,
> {
    if trimmed.len() == 0 && !has_image {
        Err(ForumError::EmptyContent)
    } else if byte_len(trimmed) > max_len {
        Err(ForumError::ContentTooLong)
    } else {
        Ok(())
    }
}

/// Checks an already trimmed text against the content rules.
pub fn check_content(trimmed: &str, has_image: bool, max_len: usize) -> (r: Result<(), ForumError>)
    ensures
        r == content_verdict(trimmed@, has_image, max_len),
{
    let empty = trimmed.is_empty();
    let n = trimmed.as_bytes().len();
    if empty && !has_image {
        Err(ForumError::EmptyContent)
    } else if !empty && n > max_len {
        Err(ForumError::ContentTooLong)
    } else {
        proof {
            if empty {
                assert(trimmed@ =~= Seq::<char>::empty());
                assert(encode_utf8(trimmed@) =~= Seq::<u8>::empty());
            }
        }
        Ok(())
    }
}

/// Trims `text` and checks what is left against the content rules, handing
/// back the trimmed text when it passes.
pub fn prepare_content(text: &str, has_image: bool, max_len: usize) -> (r: Result<String, ForumError>)
    ensures
        match r {
            Ok(t) => t@ == trim_of(text@) && content_verdict(trim_of(text@), has_image, max_len)
                == Ok::<(), ForumError>(()),
            Err(e) => content_verdict(trim_of(text@), has_image, max_len) == Err::<(), ForumError>(
                e,
            ),
        },
{
    let trimmed = trim_text(text);
    match check_content(trimmed, has_image, max_len) {
        Ok(()) => Ok(trimmed.to_owned()),
        Err(e) => Err(e),
    }
}

} // verus!
