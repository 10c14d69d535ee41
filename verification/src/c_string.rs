//! The foreign string convention: a byte buffer that ends in a single nul
//! byte and holds no other nul.

use vstd::prelude::*;
use vstd::slice::slice_to_vec;
use vstd::string::StringSliceAdditionalSpecFns;

verus! {

/// Whether `bytes` holds a nul byte anywhere.
pub open spec fn has_nul(bytes: Seq<u8>) -> bool {
    exists|i: int| 0 <= i < bytes.len() && bytes[i] == 0
}

/// Whether `at` is the index of the first nul byte of `bytes`.
pub open spec fn is_first_nul(bytes: Seq<u8>, at: int) -> bool {
    &&& 0 <= at < bytes.len()
    &&& bytes[at] == 0
    &&& forall|i: int| 0 <= i < at ==> bytes[i] != 0
}

/// Whether `bytes` is a well-formed buffer of the foreign convention: its
/// last byte is nul and no byte before it is.
pub open spec fn is_nul_terminated(bytes: Seq<u8>) -> bool {
    is_first_nul(bytes, bytes.len() - 1)
}

/// Why a string cannot cross the boundary: it holds a nul byte, which the
/// foreign convention reserves for the end of the buffer.
#[derive(Clone, Copy, Debug, PartialEq, Eq)]
pub struct NulError {
    /// Index of the first nul byte in the rejected input.
    pub position: usize,
}

/// Why a byte buffer is not a well-formed string of the foreign convention.
#[derive(Clone, Copy, Debug, PartialEq, Eq)]
pub enum FromVecWithNulError {
    /// A nul byte stands at this index, before the last byte.
    InteriorNul(usize),
    /// The buffer holds no nul byte at all.
    NotNulTerminated,
}

/// What [`CString::from_vec_with_nul`] makes of a buffer: the contents in
/// front of the terminator, or the reason the buffer is malformed.
pub open spec fn parse_nul_terminated(bytes: Seq<u8>) -> Result<Seq<u8>, FromVecWithNulError> {
    if is_nul_terminated(bytes) {
        Ok(bytes.drop_last())
    } else if has_nul(bytes) {
        Err(FromVecWithNulError::InteriorNul(first_nul(bytes) as usize))
    } else {
        Err(FromVecWithNulError::NotNulTerminated)
    }
}

/// Whether `made` is what [`CString::from_vec_with_nul`] returns for `bytes`.
pub open spec fn is_parse_of(bytes: Seq<u8>, made: Result<CString, FromVecWithNulError>) -> bool {
    match made {
        Ok(c) => parse_nul_terminated(bytes) == Ok::<Seq<u8>, FromVecWithNulError>(c@),
        Err(e) => parse_nul_terminated(bytes) == Err::<Seq<u8>, FromVecWithNulError>(e),
    }
}

/// The index of the first nul byte of `bytes`, where it has one.
pub open spec fn first_nul(bytes: Seq<u8>) -> int {
    choose|at: int| is_first_nul(bytes, at)
}

/// A buffer has at most one first nul byte.
pub proof fn lemma_first_nul_unique(bytes: Seq<u8>, at: int)
    requires
        is_first_nul(bytes, at),
    ensures
        has_nul(bytes),
        first_nul(bytes) == at,
{
    let other = first_nul(bytes);
    assert(is_first_nul(bytes, other));
    if other < at {
        assert(bytes[other] != 0);
    } else if at < other {
        assert(bytes[at] != 0);
    }
}

/// What is marshalled out comes back as it was: contents without a nul
/// byte, followed by the terminator, parse to those contents.
pub proof fn law_terminated_contents_parse_back(contents: Seq<u8>)
    requires
        !has_nul(contents),
    ensures
        parse_nul_terminated(contents.push(0u8)) == Ok::<Seq<u8>, FromVecWithNulError>(contents),
{
    let buffer = contents.push(0u8);
    assert(buffer.drop_last() =~= contents);
    assert forall|i: int| 0 <= i < buffer.len() - 1 implies buffer[i] != 0 by {
        assert(buffer[i] == contents[i]);
    }
}

/// A buffer that parses is its contents followed by the terminator, and the
/// contents hold no nul byte: nothing is cut off and nothing is added.
pub proof fn law_parsed_contents_are_whole(buffer: Seq<u8>, contents: Seq<u8>)
    requires
        parse_nul_terminated(buffer) == Ok::<Seq<u8>, FromVecWithNulError>(contents),
    ensures
        buffer == contents.push(0u8),
        !has_nul(contents),
{
    assert(buffer =~= buffer.drop_last().push(0u8));
}

/// Finds the first nul byte of `bytes`.
pub fn find_nul(bytes: &[u8]) -> (found: Option<usize>)
    ensures
        match found {
            Some(at) => is_first_nul(bytes@, at as int),
            None => !has_nul(bytes@),
        },
{
    let mut i: usize = 0;
    while i < bytes.len()
        invariant
            i <= bytes.len(),
            forall|j: int| 0 <= j < i ==> bytes@[j] != 0,
        decreases bytes.len() - i,
    {
        if bytes[i] == 0 {
            return Some(i);
        }
        i += 1;
    }
    None
}

/// Whether `s` can cross the boundary, that is, holds no nul byte.
pub fn contains_nul(s: &str) -> (found: bool)
    ensures
        found == has_nul(s.spec_bytes()),
{
    find_nul(s.as_bytes()).is_some()
}

/// An owned string in the foreign convention. It keeps its terminating nul
/// byte; its view is the contents in front of it, which hold no nul.
#[derive(Debug, PartialEq, Eq)]
pub struct CString {
    bytes: Vec<u8>,
}

impl View for CString {
    type V = Seq<u8>;

    closed spec fn view(&self) -> Seq<u8> {
        self.bytes@.drop_last()
    }
}

impl Clone for CString {
    fn clone(&self) -> (copy: CString)
        ensures
            copy@ == self@,
    {
        proof {
            use_type_invariant(self);
        }
        let bytes = self.bytes.clone();
        assert(bytes@ =~= self.bytes@);
        CString { bytes }
    }
}

impl CString {
    #[verifier::type_invariant]
    spec fn well_formed(&self) -> bool {
        is_nul_terminated(self.bytes@)
    }

    /// Marshals a native string: its bytes, followed by the terminator.
    /// A string that holds a nul byte is rejected with the index of the
    /// first one.
    pub fn new(s: &str) -> (made: Result<CString, NulError>)
        ensures
            match made {
                Ok(c) => !has_nul(s.spec_bytes()) && c@ == s.spec_bytes(),
                Err(e) => is_first_nul(s.spec_bytes(), e.position as int),
            },
    {
        let raw = s.as_bytes();
        match find_nul(raw) {
            Some(position) => Err(NulError { position }),
            None => {
                let mut bytes = slice_to_vec(raw);
                bytes.push(0u8);
                assert(bytes@.drop_last() =~= raw@);
                Ok(CString { bytes })
            },
        }
    }

    /// Takes over a buffer that already ends in its terminator, as the
    /// foreign side hands strings out. The buffer is accepted exactly when
    /// its only nul byte is its last byte.
    pub fn from_vec_with_nul(bytes: Vec<u8>) -> (made: Result<CString, FromVecWithNulError>)
        ensures
            is_parse_of(bytes@, made),
    {
        match find_nul(bytes.as_slice()) {
            Some(at) => {
                proof {
                    lemma_first_nul_unique(bytes@, at as int);
                }
                assert(at < bytes.len());
                if at == bytes.len() - 1 {
                    Ok(CString { bytes })
                } else {
                    Err(FromVecWithNulError::InteriorNul(at))
                }
            },
            None => {
                assert(!is_nul_terminated(bytes@));
                Err(FromVecWithNulError::NotNulTerminated)
            },
        }
    }

    /// The contents, without the terminator.
    pub fn as_bytes(&self) -> (contents: &[u8])
        ensures
            contents@ == self@,
            !has_nul(self@),
    {
        proof {
            use_type_invariant(self);
        }
        let n: usize = self.bytes.len() - 1;
        let contents = vstd::slice::slice_subrange(self.bytes.as_slice(), 0, n);
        assert(contents@ =~= self@);
        contents
    }

    /// The whole buffer as it crosses the boundary: the contents, then the
    /// terminator.
    pub fn as_bytes_with_nul(&self) -> (buffer: &[u8])
        ensures
            buffer@ == self@.push(0u8),
            is_nul_terminated(buffer@),
    {
        proof {
            use_type_invariant(self);
            assert(self.bytes@ =~= self@.push(0u8));
        }
        self.bytes.as_slice()
    }

    /// Gives up the buffer, terminator and all.
    pub fn into_bytes_with_nul(self) -> (buffer: Vec<u8>)
        ensures
            buffer@ == self@.push(0u8),
            is_nul_terminated(buffer@),
    {
        proof {
            use_type_invariant(&self);
            assert(self.bytes@ =~= self@.push(0u8));
        }
        self.bytes
    }
}

} // verus!
