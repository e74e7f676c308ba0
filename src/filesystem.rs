//! Choosing the executables among the file names of a directory.
use vstd::prelude::*;
use crate::text::{ends_with, ends_with_str};

verus! {

/// What `str::to_lowercase` makes of a string.
pub uninterp spec fn lower_of(s: Seq<char>) -> Seq<char>;

/// Relies on `str::to_lowercase`: its result depends on the characters alone.
#[verifier::external_body]
fn lowercase(s: &str) -> (r: String)
    ensures
        r@ == lower_of(s@),
{
    s.to_lowercase()
}

/// A lowercased file name names an executable when it ends with `.exe`.
pub open spec fn is_exe_lowered(lowered: Seq<char>) -> bool {
    ends_with(lowered, ".exe"@)
}

/// A file name names an executable when its lowercase form ends with `.exe`.
pub open spec fn is_exe_name(name: Seq<char>) -> bool {
    is_exe_lowered(lower_of(name))
}

/// The names of executables among `names`, in their order.
pub open spec fn exe_names_of(names: Seq<Seq<char>>) -> Seq<Seq<char>>
    decreases names.len(),
{
    if names.len() == 0 {
        seq![]
    } else if is_exe_name(names.last()) {
        exe_names_of(names.drop_last()).push(names.last())
    } else {
        exe_names_of(names.drop_last())
    }
}

/// Whether an already lowercased file name ends with `.exe`.
pub fn has_exe_suffix(lowered: &str) -> (r: bool)
    ensures
        r == is_exe_lowered(lowered@),
{
    ends_with_str(lowered, ".exe")
}

/// The file names among `names` that name executables, in their order.
pub fn exe_files(names: &Vec<String>) -> (r: Vec<String>)
    ensures
        r@.map_values(|x: String| x@) == exe_names_of(names@.map_values(|x: String| x@)),
{
    let mut r: Vec<String> = Vec::new();
    let ghost all = names@.map_values(|x: String| x@);
    let mut i: usize = 0;
    let n: usize = names.len();
    proof {
        assert(all.subrange(0, 0) =~= Seq::<Seq<char>>::empty());
        assert(r@.map_values(|x: String| x@) =~= Seq::<Seq<char>>::empty());
    }
    while i < n
        invariant
            n == names@.len(),
            all == names@.map_values(|x: String| x@),
            i <= n,
            r@.map_values(|x: String| x@) == exe_names_of(all.subrange(0, i as int)),
        decreases n - i,
    {
        let name: &String = &names[i];
        proof {
            assert(all.subrange(0, i + 1).drop_last() =~= all.subrange(0, i as int));
            assert(all.subrange(0, i + 1).last() == name@);
        }
        let lowered = lowercase(name.as_str());
        if has_exe_suffix(lowered.as_str()) {
            r.push(String::from_str(name.as_str()));
            proof {
                assert(r@.map_values(|x: String| x@) =~= exe_names_of(all.subrange(0, i as int)).push(
                    name@,
                ));
            }
        }
        i = i + 1;
    }
    proof {
        assert(all.subrange(0, n as int) =~= all);
    }
    r
}

} // verus!
