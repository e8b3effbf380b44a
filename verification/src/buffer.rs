use vstd::prelude::*;

verus! {

/// An owned, fixed-content buffer of elements an engine call handed back.
///
/// The engine allocates its reply buffers itself; the boundary copies each
/// reply into owned storage exactly once, and a value of this type is the
/// sole owner from then on. Its contents never change after construction,
/// and it is never reread at another element width.
pub struct SentencePieceBuffer<T> {
    data: Vec<T>,
}

impl<T> View for SentencePieceBuffer<T> {
    type V = Seq<T>;

    closed spec fn view(&self) -> Seq<T> {
        self.data@
    }
}

impl<T> SentencePieceBuffer<T> {
    /// Takes ownership of elements already copied out of an engine reply.
    pub fn from_vec(data: Vec<T>) -> (r: SentencePieceBuffer<T>)
        ensures
            r@ == data@,
    {
        SentencePieceBuffer { data }
    }

    /// The number of elements the engine handed back.
    pub fn len(&self) -> (r: usize)
        ensures
            r == self@.len(),
    {
        self.data.len()
    }

    /// A read-only view of the whole reply.
    pub fn as_ref(&self) -> (r: &[T])
        ensures
            r@ == self@,
    {
        self.data.as_slice()
    }
}

} // verus!
