//! Byte strings that end in a zero.

use vstd::prelude::*;

verus! {

/// A byte string that ends in a zero. Its view leaves that zero out.
#[derive(Debug, PartialEq, Eq)]
pub struct NulTerminated {
    bytes: Vec<u8>,
}

impl View for NulTerminated {
    type V = Seq<u8>;

    closed spec fn view(&self) -> Seq<u8> {
        self.bytes@.drop_last()
    }
}

/// The bytes before the first zero, which is where a reader of C strings stops.
pub open spec fn c_string(bytes: Seq<u8>) -> Seq<u8>
    decreases bytes.len(),
{
    if bytes.len() == 0 || bytes.first() == 0 {
        Seq::empty()
    } else {
        seq![bytes.first()] + c_string(bytes.drop_first())
    }
}

impl NulTerminated {
    #[verifier::type_invariant]
    spec fn ends_in_zero(self) -> bool {
        self.bytes@.len() > 0 && self.bytes@.last() == 0
    }

    /// The given bytes, with a zero put behind them.
    pub fn new(content: Vec<u8>) -> (terminated: NulTerminated)
        ensures
            terminated@ == content@,
    {
        let mut bytes: Vec<u8> = content;
        bytes.push(0);
        assert(bytes@.drop_last() =~= content@);
        NulTerminated { bytes }
    }

    /// The bytes with the zero at their end.
    pub fn to_bytes_with_nul(&self) -> (bytes: &[u8])
        ensures
            bytes@ == self@.push(0),
    {
        proof {
            use_type_invariant(self);
        }
        let bytes = self.bytes.as_slice();
        assert(bytes@ =~= self@.push(0));
        bytes
    }

    /// The bytes without the zero at their end.
    pub fn to_bytes(&self) -> (bytes: &[u8])
        ensures
            bytes@ == self@,
    {
        proof {
            use_type_invariant(self);
        }
        let bytes = vstd::slice::slice_subrange(self.bytes.as_slice(), 0, self.bytes.len() - 1);
        assert(bytes@ =~= self@);
        bytes
    }
}

impl Clone for NulTerminated {
    fn clone(&self) -> (copy: NulTerminated)
        ensures
            copy@ == self@,
    {
        let mut content: Vec<u8> = Vec::new();
        content.extend_from_slice(self.to_bytes());
        assert(content@ =~= self@);
        NulTerminated::new(content)
    }
}

/// A reader of C strings gets the whole content back, if there is no zero in it.
pub proof fn terminated_content_is_read_whole(content: Seq<u8>)
    requires
        !content.contains(0),
    ensures
        c_string(content.push(0)) == content,
    decreases content.len(),
{
    if content.len() == 0 {
        assert(c_string(content.push(0)) =~= content);
    } else {
        let rest = content.drop_first();
        assert(content.contains(content.first()));
        assert forall|b: u8| rest.contains(b) implies content.contains(b) by {
            let i = choose|i: int| 0 <= i < rest.len() && rest[i] == b;
            assert(content[i + 1] == b);
        }
        terminated_content_is_read_whole(rest);
        assert(content.push(0).drop_first() =~= rest.push(0));
        assert(c_string(content.push(0)) =~= content);
    }
}

/// What is put in comes out again, with the zero behind it or without it, and a copy holds
/// the same.
pub proof fn content_comes_out_again(
    content: Vec<u8>,
    terminated: NulTerminated,
    copy: NulTerminated,
    with_nul: &[u8],
    without_nul: &[u8],
    copy_with_nul: &[u8],
    copy_without_nul: &[u8],
)
    requires
        call_ensures(NulTerminated::new, (content,), terminated),
        call_ensures(NulTerminated::clone, (&terminated,), copy),
        call_ensures(NulTerminated::to_bytes_with_nul, (&terminated,), with_nul),
        call_ensures(NulTerminated::to_bytes, (&terminated,), without_nul),
        call_ensures(NulTerminated::to_bytes_with_nul, (&copy,), copy_with_nul),
        call_ensures(NulTerminated::to_bytes, (&copy,), copy_without_nul),
    ensures
        with_nul@ == content@.push(0),
        without_nul@ == content@,
        copy_with_nul@ == content@.push(0),
        copy_without_nul@ == content@,
{
}

} // verus!
