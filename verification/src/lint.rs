use vstd::prelude::*;

verus! {

/// The late lint pass that reports constructors taking raw pointers.
#[derive(Clone, Copy, Debug)]
pub struct RawPtrConstructor;

/// The positions that a constructor check looks at: those that both the
/// type-checked signature and the written signature have.
pub open spec fn compared_len(raw_ptr_params: Seq<bool>, written_params: nat) -> nat {
    if raw_ptr_params.len() <= written_params {
        raw_ptr_params.len()
    } else {
        written_params
    }
}

/// `flagged` lists, in increasing order and each once, exactly the
/// positions below `compared_len` whose parameter type is a raw pointer,
/// and nothing at all when the method is not a constructor.
pub open spec fn flags_exactly(
    returns_self: bool,
    raw_ptr_params: Seq<bool>,
    written_params: nat,
    flagged: Seq<usize>,
) -> bool {
    let m = compared_len(raw_ptr_params, written_params);
    if !returns_self {
        flagged.len() == 0
    } else {
        &&& forall|a: int, b: int| 0 <= a < b < flagged.len() ==> flagged[a] < flagged[b]
        &&& forall|a: int|
            0 <= a < flagged.len() ==> #[trigger] flagged[a] < m && raw_ptr_params[flagged[a] as int]
        &&& forall|i: int| 0 <= i < m && raw_ptr_params[i] ==> flagged.contains(i as usize)
    }
}

impl RawPtrConstructor {
    /// The name under which the pass is registered.
    pub fn name(&self) -> (res: &'static str)
        ensures
            res@ == "RawPtrConstructor"@,
    {
        "RawPtrConstructor"
    }

    /// Decides which parameters of an associated function are reported: a
    /// function is a constructor when it returns the `Self` type of its impl,
    /// and then each parameter whose type is a raw pointer is reported. The
    /// type-checked parameters are walked together with the written ones, so
    /// only positions that both have are looked at.
    pub fn flagged_params(
        &self,
        returns_self: bool,
        raw_ptr_params: &Vec<bool>,
        written_params: usize,
    ) -> (flagged: Vec<usize>)
        ensures
            flags_exactly(returns_self, raw_ptr_params@, written_params as nat, flagged@),
    {
        let mut flagged: Vec<usize> = Vec::new();
        if !returns_self {
            return flagged;
        }
        let m = if raw_ptr_params.len() <= written_params {
            raw_ptr_params.len()
        } else {
            written_params
        };
        let mut i: usize = 0;
        while i < m
            invariant
                m == compared_len(raw_ptr_params@, written_params as nat),
                m <= raw_ptr_params@.len(),
                i <= m,
                forall|a: int, b: int| 0 <= a < b < flagged@.len() ==> flagged@[a] < flagged@[b],
                forall|a: int|
                    0 <= a < flagged@.len() ==> #[trigger] flagged@[a] < i && raw_ptr_params@[flagged@[a] as int],
                forall|k: int| 0 <= k < i && raw_ptr_params@[k] ==> flagged@.contains(k as usize),
            decreases m - i,
        {
            if raw_ptr_params[i] {
                let ghost old_flagged = flagged@;
                flagged.push(i);
                assert forall|k: int| 0 <= k < i + 1 && raw_ptr_params@[k] implies flagged@.contains(
                    k as usize,
                ) by {
                    if k < i {
                        let w = choose|w: int| 0 <= w < old_flagged.len() && old_flagged[w] == k as usize;
                        assert(flagged@[w] == k as usize);
                    } else {
                        assert(flagged@[old_flagged.len() as int] == i);
                    }
                }
            }
            i = i + 1;
        }
        flagged
    }
}

} // verus!
