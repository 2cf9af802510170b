//! The contents written into a fixed-size section that stores a path.
use vstd::prelude::*;

verus! {

/// `data` followed by zero bytes up to `size`.
pub open spec fn zero_padded(data: Seq<u8>, size: nat) -> Seq<u8> {
    data + Seq::new((size - data.len()) as nat, |_k: int| 0u8)
}

/// The new contents of a section of which `current` is the present contents,
/// so that it holds `data`: `None` where it already holds exactly `data`,
/// else `data` padded with zeros to the section's size.
pub fn patched_section(current: &[u8], data: &[u8]) -> (r: Option<Vec<u8>>)
    requires
        data@.len() <= current@.len(),
    ensures
        current@ == data@ ==> r is None,
        current@ != data@ ==> r is Some && r->0@ == zero_padded(data@, current@.len()),
{
    let mut same = current.len() == data.len();
    let mut k: usize = 0;
    while same && k < data.len()
        invariant
            data@.len() <= current@.len(),
            k <= data@.len(),
            same ==> current@.len() == data@.len(),
            same ==> forall|j: int| 0 <= j < k ==> current@[j] == data@[j],
            !same ==> current@ != data@,
        decreases data@.len() - k,
    {
        if current[k] != data[k] {
            same = false;
        }
        k += 1;
    }
    if same {
        proof {
            assert(current@ =~= data@);
        }
        return None;
    }
    let mut v: Vec<u8> = Vec::new();
    let mut i: usize = 0;
    while i < current.len()
        invariant
            data@.len() <= current@.len(),
            i <= current@.len(),
            v@ =~= zero_padded(data@, current@.len()).subrange(0, i as int),
        decreases current@.len() - i,
    {
        if i < data.len() {
            v.push(data[i]);
        } else {
            v.push(0u8);
        }
        i += 1;
    }
    proof {
        assert(v@ =~= zero_padded(data@, current@.len()));
    }
    Some(v)
}

} // verus!
