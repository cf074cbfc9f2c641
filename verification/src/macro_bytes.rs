//! Decoding the macro buffer from its stored form: exactly
//! `MACRO_SPACE_SIZE` bytes, given either as one byte string or as a
//! sequence of single bytes.
use vstd::prelude::*;

use crate::config::MACRO_SPACE_SIZE;

verus! {

/// Why a stored macro buffer was refused.
#[derive(Clone, Copy, Debug, PartialEq, Eq, Structural)]
pub enum MacroBytesError {
    /// The buffer held this many bytes (for a sequence: the index of the first
    /// missing byte, or one past the buffer when there are more).
    InvalidLength(usize),
    /// Reading the element at this position of the sequence failed.
    Element(usize),
}

/// Decodes a macro buffer given as one byte string: accepted, byte for byte,
/// exactly when it holds `MACRO_SPACE_SIZE` bytes; otherwise refused with its
/// length.
pub fn decode_macro_bytes(value: &[u8]) -> (r: Result<Vec<u8>, MacroBytesError>)
    ensures
        value@.len() == MACRO_SPACE_SIZE ==> (r matches Ok(bytes) && bytes@ == value@),
        value@.len() != MACRO_SPACE_SIZE ==> (r matches Err(MacroBytesError::InvalidLength(n)) && n
            == value@.len()),
{
    if value.len() != MACRO_SPACE_SIZE {
        return Err(MacroBytesError::InvalidLength(value.len()));
    }
    let mut bytes: Vec<u8> = Vec::new();
    for i in 0..MACRO_SPACE_SIZE
        invariant
            value@.len() == MACRO_SPACE_SIZE,
            bytes@ == value@.subrange(0, i as int),
    {
        bytes.push(value[i]);
    }
    assert(bytes@ =~= value@);
    Ok(bytes)
}

/// The index of the first element of `items` that failed to read, if any
/// among the first `n`.
pub open spec fn spec_first_failure<E>(items: Seq<Result<u8, E>>, n: int) -> Option<int> {
    if exists|i: int| 0 <= i < n && i < items.len() && items[i] is Err {
        Some(choose|i: int| 0 <= i < n && i < items.len() && items[i] is Err && forall|j: int| 0 <= j < i ==> items[j] is Ok)
    } else {
        None
    }
}

/// The outcome of decoding a macro buffer from the sequence of element reads
/// `items`, read in order until the sequence ends: the first failed read among
/// the first `MACRO_SPACE_SIZE + 1` is reported by its position; a sequence that ends early is
/// refused with the index of the first missing byte; one with an element left
/// after `MACRO_SPACE_SIZE` bytes is refused with `MACRO_SPACE_SIZE + 1`.
pub open spec fn spec_decode_macro_seq<E>(items: Seq<Result<u8, E>>) -> Result<Seq<u8>, MacroBytesError> {
    let n = MACRO_SPACE_SIZE as int;
    let read = if items.len() > n { n + 1 } else { items.len() as int };
    match spec_first_failure(items, read) {
        Some(i) => Err(MacroBytesError::Element(i as usize)),
        None => if items.len() < n {
            Err(MacroBytesError::InvalidLength(items.len() as usize))
        } else if items.len() > n {
            Err(MacroBytesError::InvalidLength((n + 1) as usize))
        } else {
            Ok(Seq::new(n as nat, |i: int| items[i]->Ok_0))
        },
    }
}

/// Decodes a macro buffer given as a sequence of single bytes, from the
/// outcomes of reading its elements in order up to the end of the sequence.
pub fn decode_macro_seq<E>(items: &[Result<u8, E>]) -> (r: Result<Vec<u8>, MacroBytesError>)
    ensures
        match (r, spec_decode_macro_seq(items@)) {
            (Ok(bytes), Ok(expected)) => bytes@ == expected,
            (Err(e), Err(expected)) => e == expected,
            _ => false,
        },
{
    let mut bytes: Vec<u8> = Vec::new();
    let mut idx: usize = 0;
    while idx < MACRO_SPACE_SIZE
        invariant
            idx <= MACRO_SPACE_SIZE,
            bytes@.len() == idx,
            idx <= items@.len(),
            forall|j: int| 0 <= j < idx ==> #[trigger] items@[j] is Ok && bytes@[j] == items@[j]->Ok_0,
        decreases MACRO_SPACE_SIZE - idx,
    {
        if idx >= items.len() {
            proof {
                assert(!exists|i: int| 0 <= i < items@.len() && items@[i] is Err);
            }
            return Err(MacroBytesError::InvalidLength(idx));
        }
        match &items[idx] {
            Ok(b) => {
                bytes.push(*b);
            },
            Err(_) => {
                proof {
                    let read = if items@.len() > MACRO_SPACE_SIZE { MACRO_SPACE_SIZE + 1 } else { items@.len() as int };
                    assert(0 <= idx < read && idx < items@.len() && items@[idx as int] is Err);
                    let i = choose|i: int| 0 <= i < read && i < items@.len() && items@[i] is Err && forall|j: int| 0 <= j < i ==> items@[j] is Ok;
                    assert(forall|j: int| 0 <= j < idx ==> items@[j] is Ok);
                    assert(i == idx) by {
                        if i < idx {
                            assert(items@[i] is Ok);
                        } else if i > idx {
                            assert(items@[idx as int] is Ok);
                        }
                    }
                }
                return Err(MacroBytesError::Element(idx));
            },
        }
        idx = idx + 1;
    }
    if items.len() > MACRO_SPACE_SIZE {
        match &items[MACRO_SPACE_SIZE] {
            Err(_) => {
                proof {
                    let n = MACRO_SPACE_SIZE as int;
                    assert(0 <= n < n + 1 && n < items@.len() && items@[n] is Err);
                    let i = choose|i: int| 0 <= i < n + 1 && i < items@.len() && items@[i] is Err && forall|j: int| 0 <= j < i ==> items@[j] is Ok;
                    assert(i == n) by {
                        if i < n {
                            assert(items@[i] is Ok);
                        } else if i > n {
                            assert(items@[n] is Ok);
                        }
                    }
                }
                return Err(MacroBytesError::Element(MACRO_SPACE_SIZE));
            },
            Ok(_) => {
                proof {
                    assert(!exists|i: int| 0 <= i < MACRO_SPACE_SIZE + 1 && i < items@.len() && items@[i] is Err) by {
                        assert(forall|i: int| 0 <= i < MACRO_SPACE_SIZE ==> items@[i] is Ok);
                    }
                }
                return Err(MacroBytesError::InvalidLength(MACRO_SPACE_SIZE + 1));
            },
        }
    }
    proof {
        assert(!exists|i: int| 0 <= i < items@.len() && items@[i] is Err);
        assert(bytes@ =~= Seq::new(MACRO_SPACE_SIZE as nat, |i: int| items@[i]->Ok_0));
    }
    Ok(bytes)
}

} // verus!
