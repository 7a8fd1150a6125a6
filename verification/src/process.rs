//! The process resolver's pure part: reducing a full executable image path
//! to its final component, the file name shown next to a window. Opening
//! the process and reading its image path is the driver's work; when either
//! is denied the record simply carries no name.

use vstd::prelude::*;
use vstd::string::StrSliceExecFns;
use vstd::string::StringExecFns;

verus! {

/// Path separator of the target platform's process image paths.
pub const PATH_SEPARATOR: char = '\\';

/// The final component of an executable image path: everything after the
/// last separator, or the whole path when it has none. A path ending in a
/// separator has an empty final component.
pub open spec fn file_name_of(path: Seq<char>) -> Seq<char>
    decreases path.len(),
{
    if path.len() == 0 {
        path
    } else if path.last() == PATH_SEPARATOR {
        Seq::empty()
    } else {
        file_name_of(path.drop_last()).push(path.last())
    }
}

proof fn lemma_file_name_is_suffix(path: Seq<char>, cut: int)
    requires
        0 <= cut <= path.len(),
        forall|j: int| cut <= j < path.len() ==> path[j] != PATH_SEPARATOR,
        cut > 0 ==> path[cut - 1] == PATH_SEPARATOR,
    ensures
        file_name_of(path) == path.subrange(cut, path.len() as int),
    decreases path.len(),
{
    if cut == path.len() {
        assert(path.subrange(cut, path.len() as int) =~= Seq::<char>::empty());
        if cut == 0 {
            assert(path =~= Seq::<char>::empty());
        }
    } else {
        lemma_file_name_is_suffix(path.drop_last(), cut);
        assert(path.drop_last().subrange(cut, path.len() - 1).push(path.last()) =~= path.subrange(
            cut,
            path.len() as int,
        ));
    }
}

/// Extract the executable file name from a full image path. Total: every
/// path has a (possibly empty) final component, so resolution itself never
/// fails here.
pub fn executable_name(path: &str) -> (name: String)
    ensures
        name@ == file_name_of(path@),
{
    let len = path.unicode_len();
    let mut cut: usize = len;
    while cut > 0
        invariant_except_break
            cut <= len,
            len == path@.len(),
            forall|j: int| cut <= j < len ==> path@[j] != PATH_SEPARATOR,
        ensures
            cut <= len,
            len == path@.len(),
            forall|j: int| cut <= j < len ==> path@[j] != PATH_SEPARATOR,
            cut > 0 ==> path@[cut - 1] == PATH_SEPARATOR,
        decreases cut,
    {
        if path.get_char(cut - 1) == PATH_SEPARATOR {
            break ;
        }
        cut -= 1;
    }
    let tail = path.substring_char(cut, len);
    proof {
        lemma_file_name_is_suffix(path@, cut as int);
    }
    String::from_str(tail)
}

} // verus!
