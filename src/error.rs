use vstd::prelude::*;

verus! {

/// Why a sequence of bytes could not be decoded.
#[derive(Debug, Clone, Copy, PartialEq, Eq, Structural)]
pub enum DecodeError {
    /// Fewer bytes than the fixed part of the item needs.
    InsufficientLength,
    /// The IPv4 version nibble is not 4.
    InvalidVersion,
    /// The IPv4 header length nibble is below 5.
    InvalidHeaderLength,
    /// An option kind that this codec does not know.
    UnknownOption,
    /// An option whose length byte is wrong, or longer than the bytes left.
    TruncatedOption,
}

/// `acc` followed by what `r` decoded, or the error of `r`.
pub open spec fn after<T>(acc: Seq<T>, r: Result<Seq<T>, DecodeError>) -> Result<
    Seq<T>,
    DecodeError,
> {
    match r {
        Ok(s) => Ok(acc + s),
        Err(e) => Err(e),
    }
}

} // verus!
