//! What the registry computes from the content of a document.

use vstd::prelude::*;
use vstd::string::*;
use crate::manager::DocumentManager;

verus! {

/// The paragraphs in their order, with a line feed between neighbours and
/// none at either end.
pub open spec fn joined_paragraphs(paragraphs: Seq<String>) -> Seq<char>
    decreases paragraphs.len(),
{
    if paragraphs.len() == 0 {
        Seq::empty()
    } else if paragraphs.len() == 1 {
        paragraphs[0]@
    } else {
        joined_paragraphs(paragraphs.drop_last()) + seq!['\n'] + paragraphs.last()@
    }
}

impl DocumentManager {
    /// The plain text of a document, from its paragraphs.
    pub fn get_document_text(&self, paragraphs: &Vec<String>) -> (text: String)
        ensures
            text@ == joined_paragraphs(paragraphs@),
    {
        let mut text = String::new();
        let mut i: usize = 0;
        while i < paragraphs.len()
            invariant
                i <= paragraphs.len(),
                text@ == joined_paragraphs(paragraphs@.take(i as int)),
            decreases paragraphs.len() - i,
        {
            if i > 0 {
                proof {
                    reveal_strlit("\n");
                }
                text.append("\n");
                assert("\n"@ =~= seq!['\n']);
            }
            text.append(paragraphs[i].as_str());
            proof {
                let before = paragraphs@.take(i as int);
                let after = paragraphs@.take(i + 1);
                assert(after.drop_last() =~= before);
                assert(after.last() == paragraphs@[i as int]);
                if i == 0 {
                    assert(text@ =~= paragraphs@[0]@);
                }
            }
            i += 1;
        }
        assert(paragraphs@.take(i as int) =~= paragraphs@);
        text
    }
}

} // verus!
