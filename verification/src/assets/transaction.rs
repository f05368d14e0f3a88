//! The cumulative byte budget of one multi-image paste, and the Markdown a
//! completed paste inserts.

use vstd::prelude::*;
use vstd::string::StringExecFns;

use crate::text::encoding::push_char;

verus! {

pub const MAX_IMAGE_PASTE_BATCH_BYTES: usize = 134_217_728;

/// Why an image paste was refused before anything was published. Failures
/// of reading, decoding or storing an image are reported by the shell that
/// performs them.
#[derive(Debug, Clone, Copy, PartialEq, Eq, Structural)]
pub enum AssetPasteError {
    BatchTooLarge { limit: usize },
}

/// Adds one image to the running batch total. The total is updated unless the
/// addition overflows; either an overflow or a total above the limit is refused.
pub fn add_batch_bytes(total: &mut usize, bytes: usize) -> (r: Result<(), AssetPasteError>)
    ensures
        *old(total) + bytes > usize::MAX ==> *final(total) == *old(total) && r == Err::<
            (),
            AssetPasteError,
        >(AssetPasteError::BatchTooLarge { limit: MAX_IMAGE_PASTE_BATCH_BYTES }),
        *old(total) + bytes <= usize::MAX ==> *final(total) == *old(total) + bytes && (r
            is Ok <==> *old(total) + bytes <= MAX_IMAGE_PASTE_BATCH_BYTES) && (r is Err ==> r
            == Err::<(), AssetPasteError>(
            AssetPasteError::BatchTooLarge { limit: MAX_IMAGE_PASTE_BATCH_BYTES },
        )),
{
    if *total > usize::MAX - bytes {
        return Err(AssetPasteError::BatchTooLarge { limit: MAX_IMAGE_PASTE_BATCH_BYTES });
    }
    *total = *total + bytes;
    if *total > MAX_IMAGE_PASTE_BATCH_BYTES {
        Err(AssetPasteError::BatchTooLarge { limit: MAX_IMAGE_PASTE_BATCH_BYTES })
    } else {
        Ok(())
    }
}

/// `![](images/NAME)` for one stored image.
pub open spec fn image_link(name: Seq<char>) -> Seq<char> {
    seq!['!', '[', ']', '(', 'i', 'm', 'a', 'g', 'e', 's', '/'] + name + seq![')']
}

/// The links of `names`, separated by blank lines.
pub open spec fn paste_markdown_of(names: Seq<Seq<char>>) -> Seq<char>
    decreases names.len(),
{
    if names.len() == 0 {
        Seq::empty()
    } else if names.len() == 1 {
        image_link(names[0])
    } else {
        paste_markdown_of(names.drop_last()) + seq!['\n', '\n'] + image_link(names.last())
    }
}

/// The Markdown one image paste inserts: a link to each stored image under
/// `images/`, in order, separated by blank lines.
pub fn paste_markdown(names: &Vec<String>) -> (r: String)
    ensures
        r@ == paste_markdown_of(names@.map_values(|s: String| s@)),
{
    let ghost views = names@.map_values(|s: String| s@);
    let mut out = String::new();
    let mut i: usize = 0;
    while i < names.len()
        invariant
            i <= names@.len(),
            views == names@.map_values(|s: String| s@),
            out@ == paste_markdown_of(views.take(i as int)),
        decreases names@.len() - i,
    {
        if i > 0 {
            push_char(&mut out, '\n');
            push_char(&mut out, '\n');
        }
        out.append("![](images/");
        out.append(names[i].as_str());
        push_char(&mut out, ')');
        proof {
            reveal_strlit("![](images/");
            let prefix = views.take(i + 1);
            assert(prefix.drop_last() =~= views.take(i as int));
            assert(prefix.last() == names@[i as int]@);
            if i == 0 {
                assert(out@ =~= image_link(prefix[0]));
            } else {
                assert(out@ =~= paste_markdown_of(views.take(i as int)) + seq!['\n', '\n']
                    + image_link(prefix.last()));
            }
        }
        i += 1;
    }
    assert(views.take(names@.len() as int) =~= views);
    out
}

} // verus!
